//! The marker for values that flow into a boundary call by borrow.
use vstd::prelude::*;

verus! {

/// A value observed by a boundary call, not owned by it.
///
/// The call can read the value but has no way to free it: the caller keeps
/// ownership and releases the value once, through the ordinary rules, after
/// the call has returned.
#[derive(Debug)]
pub struct NonOwning<'a, T> {
    inner: &'a T,
}

impl<'a, T> NonOwning<'a, T> {
    /// The borrowed value.
    pub closed spec fn target(&self) -> T {
        *self.inner
    }

    pub fn new(value: &'a T) -> (r: NonOwning<'a, T>)
        ensures
            r.target() == *value,
    {
        NonOwning { inner: value }
    }

    /// Read access to the borrowed value.
    pub fn get(&self) -> (r: &'a T)
        ensures
            *r == self.target(),
    {
        self.inner
    }
}

} // verus!
