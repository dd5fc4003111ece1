//! Why an entry point refuses a call.

use vstd::prelude::*;

verus! {

/// The reasons for which a call fails. A failed call changes nothing.
#[derive(Clone, Copy, Debug, PartialEq, Eq, Structural)]
pub enum CounterError {
    /// `start_stuff_off` found a record already in place.
    AccountAlreadyInitialized,
    /// `start_stuff_off` found that the user holds less than the allocation costs.
    InsufficientFunds,
    /// `add_gif` found no record.
    AccountNotInitialized,
    /// `add_gif` found a record that the caller may not write to.
    AccountNotWritable,
}

} // verus!
