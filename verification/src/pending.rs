//! A wait that never ends, for states that no amount of time changes.

use core::marker::PhantomData;
use vstd::prelude::*;

verus! {

/// A wait for a `T` that never arrives.
pub struct Pending<T> {
    _data: PhantomData<T>,
}

impl<T> View for Pending<T> {
    type V = Option<T>;

    /// What the wait has produced: nothing, at any time.
    open spec fn view(&self) -> Option<T> {
        None
    }
}

impl<T> Pending<T> {
    /// Asks whether the awaited value has arrived. It has not.
    pub fn poll(&self) -> (r: Option<T>)
        ensures
            r == self@,
            r is None,
    {
        None
    }
}

/// Starts a wait that never resolves. States without a time based transition
/// hand this out in place of a successor.
pub fn pending<T>() -> (r: Pending<T>)
    ensures
        r@ is None,
{
    Pending { _data: PhantomData }
}

} // verus!
