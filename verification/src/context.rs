//! The accounts that each entry point is handed.

use crate::account::BaseAccount;
use vstd::prelude::*;

verus! {

/// The account that signs a call and pays for what the call allocates.
#[derive(Clone, Copy, Debug, PartialEq, Eq, Structural)]
pub struct Signer {
    /// What the account holds.
    pub lamports: u64,
}

/// The accounts of `start_stuff_off`.
#[derive(Clone, Copy, Debug, PartialEq, Eq, Structural)]
pub struct StartStuffOff {
    /// The place of the record: `None` while no record has been created there.
    pub base_account: Option<BaseAccount>,
    /// Who pays for the allocation.
    pub user: Signer,
    /// What the host charges for allocating the record.
    pub rent_exempt_minimum: u64,
}

/// The accounts of `add_gif`.
#[derive(Clone, Copy, Debug, PartialEq, Eq, Structural)]
pub struct AddGif {
    /// The place of the record: `None` while no record has been created there.
    pub base_account: Option<BaseAccount>,
    /// Whether the caller may write to the record.
    pub writable: bool,
}

} // verus!
