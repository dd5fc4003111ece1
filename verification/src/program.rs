//! The two entry points, and the functions on counts that say what each of
//! them answers and leaves behind.

use crate::account::{record_of, BaseAccount};
use crate::context::{AddGif, StartStuffOff};
use crate::error::CounterError;
use vstd::prelude::*;

verus! {

/// What `start_stuff_off` answers where `record` stands at the record's
/// address, the user holds `lamports` and the allocation costs
/// `rent_exempt_minimum`. A record in place comes before a lack of
/// funds.
pub open spec fn start_stuff_off_result(
    record: Option<nat>,
    lamports: nat,
    rent_exempt_minimum: nat,
) -> Result<(), CounterError> {
    if record is Some {
        Err(CounterError::AccountAlreadyInitialized)
    } else if lamports < rent_exempt_minimum {
        Err(CounterError::InsufficientFunds)
    } else {
        Ok(())
    }
}

/// What stands at the record's address after `start_stuff_off`: a count of
/// zero where the call went through, else what stood there before.
pub open spec fn start_stuff_off_record(
    record: Option<nat>,
    lamports: nat,
    rent_exempt_minimum: nat,
) -> Option<nat> {
    if start_stuff_off_result(record, lamports, rent_exempt_minimum) is Ok {
        Some(0)
    } else {
        record
    }
}

/// What the user holds after `start_stuff_off`: the cost of the allocation
/// less where the call went through, else as much as before.
pub open spec fn start_stuff_off_lamports(
    record: Option<nat>,
    lamports: nat,
    rent_exempt_minimum: nat,
) -> int {
    if start_stuff_off_result(record, lamports, rent_exempt_minimum) is Ok {
        lamports - rent_exempt_minimum
    } else {
        lamports as int
    }
}

/// What `add_gif` answers where `record` stands at the record's address and
/// the caller may write to it or not. A missing record comes before a
/// record that may not be written to.
pub open spec fn add_gif_result(record: Option<nat>, writable: bool) -> Result<(), CounterError> {
    if record is None {
        Err(CounterError::AccountNotInitialized)
    } else if !writable {
        Err(CounterError::AccountNotWritable)
    } else {
        Ok(())
    }
}

/// What stands at the record's address after `add_gif`: one more than the
/// count before where the call went through, else what stood there before.
pub open spec fn add_gif_record(record: Option<nat>, writable: bool) -> Option<nat> {
    match record {
        Some(count) if writable => Some(count + 1),
        _ => record,
    }
}

/// Creates the record with a count of zero and charges the user for the
/// allocation.
///
/// Fails with `AccountAlreadyInitialized` where a record is in place, and
/// else with `InsufficientFunds` where the user holds less than the
/// allocation costs. A failed call changes nothing.
pub fn start_stuff_off(ctx: &mut StartStuffOff) -> (result: Result<(), CounterError>)
    ensures
        result == start_stuff_off_result(
            record_of(old(ctx).base_account),
            old(ctx).user.lamports as nat,
            old(ctx).rent_exempt_minimum as nat,
        ),
        record_of(final(ctx).base_account) == start_stuff_off_record(
            record_of(old(ctx).base_account),
            old(ctx).user.lamports as nat,
            old(ctx).rent_exempt_minimum as nat,
        ),
        final(ctx).user.lamports == start_stuff_off_lamports(
            record_of(old(ctx).base_account),
            old(ctx).user.lamports as nat,
            old(ctx).rent_exempt_minimum as nat,
        ),
        final(ctx).rent_exempt_minimum == old(ctx).rent_exempt_minimum,
        old(ctx).base_account is Some ==> result == Err::<(), CounterError>(
            CounterError::AccountAlreadyInitialized,
        ),
        result is Ok ==> record_of(final(ctx).base_account) == Some(0nat),
        result is Err ==> *final(ctx) == *old(ctx),
{
    if ctx.base_account.is_some() {
        return Err(CounterError::AccountAlreadyInitialized);
    }
    if ctx.user.lamports < ctx.rent_exempt_minimum {
        return Err(CounterError::InsufficientFunds);
    }
    ctx.user.lamports = ctx.user.lamports - ctx.rent_exempt_minimum;
    ctx.base_account = Some(BaseAccount { total_gifs: 0 });
    Ok(())
}

/// Adds one to the record's count.
///
/// Fails with `AccountNotInitialized` where there is no record, and else with
/// `AccountNotWritable` where the caller may not write to it. A failed call
/// changes nothing.
///
/// The count is a `u64`: a call that would go through on a record whose count
/// is `u64::MAX` is left out.
pub fn add_gif(ctx: &mut AddGif) -> (result: Result<(), CounterError>)
    requires
        old(ctx).writable ==> record_of(old(ctx).base_account) != Some(u64::MAX as nat),
    ensures
        result == add_gif_result(record_of(old(ctx).base_account), old(ctx).writable),
        record_of(final(ctx).base_account) == add_gif_record(
            record_of(old(ctx).base_account),
            old(ctx).writable,
        ),
        final(ctx).writable == old(ctx).writable,
        old(ctx).base_account is None ==> result == Err::<(), CounterError>(
            CounterError::AccountNotInitialized,
        ),
        result is Err ==> *final(ctx) == *old(ctx),
{
    match &mut ctx.base_account {
        None => Err(CounterError::AccountNotInitialized),
        Some(base_account) => {
            if !ctx.writable {
                return Err(CounterError::AccountNotWritable);
            }
            base_account.total_gifs += 1;
            Ok(())
        },
    }
}

} // verus!
