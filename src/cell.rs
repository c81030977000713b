//! A slot that is filled once, after construction, and read afterwards.
use vstd::prelude::*;

verus! {

/// Holds a value that is set exactly once, some time after the holder was
/// built. Reading before the value is set, or setting it twice, is ruled out
/// by the contracts.
pub struct LateRefCell<T> {
    pub value: Option<T>,
}

impl<T> LateRefCell<T> {
    pub fn new() -> (r: LateRefCell<T>)
        ensures
            r.value.is_none(),
    {
        LateRefCell { value: None }
    }

    /// Fills the slot.
    pub fn set(&mut self, value: T)
        requires
            old(self).value.is_none(),
        ensures
            final(self).value == Some(value),
    {
        self.value = Some(value);
    }

    /// Whether the slot has been filled.
    pub fn is_set(&self) -> (r: bool)
        ensures
            r == self.value.is_some(),
    {
        self.value.is_some()
    }

    /// A clone of the value.
    pub fn clone_value(&self) -> (r: T) where T: Clone
        requires
            self.value.is_some(),
        ensures
            cloned(self.value.unwrap(), r),
    {
        self.value.as_ref().unwrap().clone()
    }

    /// The value, shared.
    pub fn borrow(&self) -> (r: &T)
        requires
            self.value.is_some(),
        ensures
            *r == self.value.unwrap(),
    {
        self.value.as_ref().unwrap()
    }

    /// The value, for mutation.
    pub fn borrow_mut(&mut self) -> (r: &mut T)
        requires
            old(self).value.is_some(),
        ensures
            *r == old(self).value.unwrap(),
            final(self).value == Some(*final(r)),
    {
        self.value.as_mut().unwrap()
    }
}

} // verus!
