//! A counter of GIFs kept in one persisted record, and the two entry points
//! that work on it: `start_stuff_off` creates the record with a count of
//! zero, `add_gif` adds one to the count.
//!
//! The record lives with a host that allocates it, charges for the space and
//! decides who may write to it. An entry point is handed what the host knows
//! as plain values, answers whether the call goes through, and leaves behind
//! the state that the host is to persist.

pub mod account;
pub mod context;
pub mod error;
pub mod history;
pub mod program;

pub use account::BaseAccount;
pub use context::{AddGif, Signer, StartStuffOff};
pub use error::CounterError;
pub use program::{add_gif, start_stuff_off};
