//! The persisted counter record.

use vstd::prelude::*;

verus! {

/// The record that the program keeps: how many GIFs have been added since it
/// was created.
#[derive(Clone, Copy, Debug, PartialEq, Eq, Structural)]
pub struct BaseAccount {
    pub total_gifs: u64,
}

impl View for BaseAccount {
    type V = nat;

    /// The count as a natural number.
    open spec fn view(&self) -> nat {
        self.total_gifs as nat
    }
}

/// What stands at the record's address: `None` while no record has been
/// created there, else the record's count.
pub open spec fn record_of(slot: Option<BaseAccount>) -> Option<nat> {
    match slot {
        Some(account) => Some(account@),
        None => None,
    }
}

} // verus!
