use vstd::prelude::*;

verus! {

/// Refusal to hand out a value that is already held elsewhere.
#[derive(PartialEq, Eq, Structural, Clone, Copy, Debug)]
pub enum AccessError {
    AlreadyBorrowed,
}

/// A slot that hands its value to one holder at a time.
///
/// While the value is out, the slot is empty and every further attempt to
/// take it is refused at once: two live writers are never allowed.
#[derive(Debug)]
pub struct ExclusiveCell<T> {
    pub slot: Option<T>,
}

impl<T> ExclusiveCell<T> {
    pub open spec fn is_free(&self) -> bool {
        self.slot is Some
    }

    /// The value held, when the slot is free.
    pub open spec fn value(&self) -> T {
        self.slot->0
    }

    pub fn new(value: T) -> (r: ExclusiveCell<T>)
        ensures
            r.slot == Some(value),
    {
        ExclusiveCell { slot: Some(value) }
    }

    pub fn is_borrowed(&self) -> (r: bool)
        ensures
            r == !self.is_free(),
    {
        self.slot.is_none()
    }

    /// Takes the value out, leaving the slot held; refused when it is
    /// already held.
    pub fn acquire(&mut self) -> (r: Result<T, AccessError>)
        ensures
            old(self).is_free() ==> r == Ok::<T, AccessError>(old(self).value())
                && !final(self).is_free(),
            !old(self).is_free() ==> r == Err::<T, AccessError>(AccessError::AlreadyBorrowed)
                && *final(self) == *old(self),
    {
        match self.slot.take() {
            Some(v) => Ok(v),
            None => Err(AccessError::AlreadyBorrowed),
        }
    }

    /// Takes the value out, leaving the slot held. Taking from a held slot
    /// is a programming error: the caller must know the slot is free.
    pub fn take(&mut self) -> (r: T)
        requires
            old(self).is_free(),
        ensures
            r == old(self).value(),
            !final(self).is_free(),
    {
        self.slot.take().unwrap()
    }

    /// Puts a value back into a held slot.
    pub fn release(&mut self, value: T)
        requires
            !old(self).is_free(),
        ensures
            final(self).slot == Some(value),
    {
        self.slot = Some(value);
    }
}

} // verus!
