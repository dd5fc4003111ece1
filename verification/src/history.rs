//! Runs of calls on one record, and what holds of the count after any of them.

use crate::error::CounterError;
use crate::program::{
    add_gif_record, add_gif_result, start_stuff_off_record, start_stuff_off_result,
};
use vstd::prelude::*;

verus! {

/// One call, with what the host hands it besides the record.
pub enum Call {
    /// A call of `start_stuff_off` by a user who holds `lamports`, at a time
    /// when the allocation costs `rent_exempt_minimum`.
    StartStuffOff { lamports: nat, rent_exempt_minimum: nat },
    /// A call of `add_gif` by a caller who may write to the record or not.
    AddGif { writable: bool },
}

/// What `call` answers where `record` stands at the record's address.
pub open spec fn result_of(record: Option<nat>, call: Call) -> Result<(), CounterError> {
    match call {
        Call::StartStuffOff { lamports, rent_exempt_minimum } => start_stuff_off_result(
            record,
            lamports,
            rent_exempt_minimum,
        ),
        Call::AddGif { writable } => add_gif_result(record, writable),
    }
}

/// What stands at the record's address after `call`.
pub open spec fn record_after(record: Option<nat>, call: Call) -> Option<nat> {
    match call {
        Call::StartStuffOff { lamports, rent_exempt_minimum } => start_stuff_off_record(
            record,
            lamports,
            rent_exempt_minimum,
        ),
        Call::AddGif { writable } => add_gif_record(record, writable),
    }
}

/// What stands at the record's address after `calls`, made in their order.
pub open spec fn record_after_all(record: Option<nat>, calls: Seq<Call>) -> Option<nat>
    decreases calls.len(),
{
    if calls.len() == 0 {
        record
    } else {
        record_after(record_after_all(record, calls.drop_last()), calls.last())
    }
}

/// Whether each of `calls`, made in their order, goes through.
pub open spec fn all_go_through(record: Option<nat>, calls: Seq<Call>) -> bool
    decreases calls.len(),
{
    calls.len() == 0 || {
        &&& all_go_through(record, calls.drop_last())
        &&& result_of(record_after_all(record, calls.drop_last()), calls.last()) is Ok
    }
}

/// How many of `calls`, made in their order, are calls of `add_gif` that go
/// through.
pub open spec fn gifs_added(record: Option<nat>, calls: Seq<Call>) -> nat
    decreases calls.len(),
{
    if calls.len() == 0 {
        0
    } else {
        let before = record_after_all(record, calls.drop_last());
        let last: nat = if calls.last() is AddGif && result_of(before, calls.last()) is Ok {
            1
        } else {
            0
        };
        gifs_added(record, calls.drop_last()) + last
    }
}

/// After `start_stuff_off` has gone through and then any number of calls of
/// `add_gif`, each of which went through, the count is the number of those
/// calls.
pub proof fn lemma_count_after_start_and_adds(record: Option<nat>, start: Call, adds: Seq<Call>)
    requires
        start is StartStuffOff,
        result_of(record, start) is Ok,
        forall|i: int| 0 <= i < adds.len() ==> adds[i] is AddGif,
        all_go_through(record_after(record, start), adds),
    ensures
        record_after_all(record_after(record, start), adds) == Some(adds.len()),
    decreases adds.len(),
{
    if adds.len() > 0 {
        lemma_count_after_start_and_adds(record, start, adds.drop_last());
    }
}

/// A record is never lost and its count never lowered: after any calls a
/// record that was in place is in place, with the count it had and one more
/// for each call of `add_gif` that went through.
pub proof fn lemma_count_grows_by_gifs_added(count: nat, calls: Seq<Call>)
    ensures
        record_after_all(Some(count), calls) == Some(count + gifs_added(Some(count), calls)),
    decreases calls.len(),
{
    if calls.len() > 0 {
        lemma_count_grows_by_gifs_added(count, calls.drop_last());
    }
}

/// From the time before the record was created, the count equals the number
/// of calls of `add_gif` that went through, whatever calls were made and
/// whichever of them failed.
pub proof fn lemma_count_is_gifs_added(calls: Seq<Call>)
    ensures
        record_after_all(None, calls) matches Some(count) ==> count == gifs_added(None, calls),
        record_after_all(None, calls) is None ==> gifs_added(None, calls) == 0,
    decreases calls.len(),
{
    if calls.len() > 0 {
        lemma_count_is_gifs_added(calls.drop_last());
    }
}

/// Once a record is in place, `start_stuff_off` fails whatever calls were
/// made in between, and leaves the record as it was.
pub proof fn lemma_second_start_fails(count: nat, calls: Seq<Call>, start: Call)
    requires
        start is StartStuffOff,
    ensures
        result_of(record_after_all(Some(count), calls), start) == Err::<(), CounterError>(
            CounterError::AccountAlreadyInitialized,
        ),
        record_after(record_after_all(Some(count), calls), start) == record_after_all(
            Some(count),
            calls,
        ),
{
    lemma_count_grows_by_gifs_added(count, calls);
}

/// Until `start_stuff_off` has gone through, no record is in place and every
/// call of `add_gif` fails: after calls among which each `start_stuff_off`
/// lacked the funds, nothing stands at the record's address, none of the
/// calls of `add_gif` went through, and one more answers
/// `AccountNotInitialized`.
pub proof fn lemma_no_record_before_start(calls: Seq<Call>, writable: bool)
    requires
        forall|i: int|
            0 <= i < calls.len() && #[trigger] calls[i] is StartStuffOff
                ==> calls[i]->lamports < calls[i]->rent_exempt_minimum,
    ensures
        record_after_all(None, calls) is None,
        gifs_added(None, calls) == 0,
        result_of(record_after_all(None, calls), (Call::AddGif { writable })) == Err::<
            (),
            CounterError,
        >(CounterError::AccountNotInitialized),
    decreases calls.len(),
{
    if calls.len() > 0 {
        lemma_no_record_before_start(calls.drop_last(), writable);
    }
}

} // verus!
