//! Helpers for handing futures around behind a pointer.
//!
//! A future is moved onto the heap unchanged; the caller then uses the box
//! wherever a trait object of `futures::Future` is wanted. Nothing here asks
//! the future to be `Send`.
use vstd::prelude::*;

verus! {

/// Moves `future` onto the heap.
///
/// The box holds exactly the value that was handed in: nothing is polled,
/// copied or wrapped on the way, and no bound (such as `Send`) is asked of
/// the future's type.
pub fn into_box<F>(future: F) -> (boxed: Box<F>)
    ensures
        *boxed == future,
{
    Box::new(future)
}

} // verus!
