//! Publish-once cells for peripheral handles.
//!
//! Start-up brings the hardware up once and publishes each handle into its
//! cell; later every context borrows it. A cell accepts one publication and
//! refuses any later one. It grants no exclusivity over what it holds: one
//! logical owner per handle is kept by convention.
use vstd::prelude::*;

verus! {

/// A cell written at most once.
pub struct PublishOnce<T> {
    handle: Option<T>,
}

impl<T> View for PublishOnce<T> {
    type V = Option<T>;

    closed spec fn view(&self) -> Option<T> {
        self.handle
    }
}

impl<T> PublishOnce<T> {
    /// A cell with nothing published yet.
    pub fn new() -> (r: Self)
        ensures
            r@ is None,
    {
        PublishOnce { handle: None }
    }

    /// Publishes `handle` if nothing was published before; otherwise leaves
    /// the cell as it is and hands `handle` back.
    pub fn publish(&mut self, handle: T) -> (r: Result<(), T>)
        ensures
            old(self)@ is None ==> final(self)@ == Some(handle) && r is Ok,
            old(self)@ is Some ==> final(self)@ == old(self)@ && r == Err::<(), T>(handle),
    {
        if self.handle.is_some() {
            Err(handle)
        } else {
            self.handle = Some(handle);
            Ok(())
        }
    }

    /// Whether a handle was published.
    pub fn is_published(&self) -> (r: bool)
        ensures
            r == self@ is Some,
    {
        self.handle.is_some()
    }

    /// The published handle, if any.
    pub fn borrow(&self) -> (r: Option<&T>)
        ensures
            r is Some == self@ is Some,
            r is Some ==> *r->0 == self@->0,
    {
        match &self.handle {
            Some(h) => Some(h),
            None => None,
        }
    }
}

} // verus!
