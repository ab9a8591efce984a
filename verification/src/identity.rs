use vstd::prelude::*;

verus! {

/// An account identity assigned by the external execution environment.
/// The governance logic relies only on identity equality, so the key is
/// carried as a plain integer value.
#[derive(Clone, Copy, PartialEq, Eq, Structural, Debug)]
pub struct Pubkey {
    pub value: u64,
}

impl Pubkey {
    pub fn new(value: u64) -> (k: Pubkey)
        ensures
            k.value == value,
    {
        Pubkey { value }
    }
}

} // verus!
