//! Monotonic handle allocation. Handle value 0 is reserved as "invalid/none";
//! handles of one kind are issued from 1 upwards and never reused.
use vstd::prelude::*;

verus! {

/// The value that never names a live entity.
pub const INVALID_HANDLE: i64 = 0;

/// Issues handles of one kind: 1, 2, 3, ... and never the same value twice.
pub struct HandleAllocator {
    pub next: i64,
}

impl HandleAllocator {
    pub open spec fn wf(&self) -> bool {
        self.next >= 1
    }

    /// Every handle issued so far is below `next`.
    pub open spec fn issued(&self, h: i64) -> bool {
        1 <= h < self.next
    }

    pub fn new() -> (r: HandleAllocator)
        ensures
            r.wf(),
            r.next == 1,
    {
        HandleAllocator { next: 1 }
    }

    /// Hands out the next handle, or `None` once the handle space is used up.
    pub fn allocate(&mut self) -> (r: Option<i64>)
        requires
            old(self).wf(),
        ensures
            final(self).wf(),
            old(self).next < i64::MAX ==> r == Some(old(self).next) && final(self).next
                == old(self).next + 1,
            old(self).next == i64::MAX ==> r.is_none() && *final(self) == *old(self),
    {
        if self.next < i64::MAX {
            let h = self.next;
            self.next = self.next + 1;
            Some(h)
        } else {
            None
        }
    }
}

/// Identifies an engine instance.
#[derive(Clone, Copy, Debug, PartialEq, Eq, Hash, Structural)]
pub struct EngineHandle(pub i64);

/// Identifies a window.
#[derive(Clone, Copy, Debug, PartialEq, Eq, Hash, Structural)]
pub struct WindowHandle(pub i64);

/// Identifies a menu.
#[derive(Clone, Copy, Debug, PartialEq, Eq, Hash, Structural)]
pub struct MenuHandle(pub i64);

} // verus!
