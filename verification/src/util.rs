//! Slots that are emptied exactly once.

use vstd::prelude::*;

verus! {

/// A slot whose value can be taken out, leaving it empty.
pub trait TakeExt<T>: Sized {
    /// The value in the slot, if it holds one.
    spec fn held(&self) -> Option<T>;

    /// Takes the value out of a full slot.
    fn take(slot: &mut Self) -> (value: T)
        requires
            old(slot).held().is_some(),
        ensures
            old(slot).held() == Some(value),
            final(slot).held().is_none(),
    ;
}

impl<T> TakeExt<T> for Option<T> {
    open spec fn held(&self) -> Option<T> {
        *self
    }

    fn take(slot: &mut Self) -> (value: T) {
        let value = slot.take();
        value.unwrap()
    }
}

} // verus!
