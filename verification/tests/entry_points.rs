use gif_counter::{add_gif, start_stuff_off, AddGif, BaseAccount, CounterError, Signer, StartStuffOff};

fn empty_slot(lamports: u64, rent_exempt_minimum: u64) -> StartStuffOff {
    StartStuffOff {
        base_account: None,
        user: Signer { lamports },
        rent_exempt_minimum,
    }
}

#[test]
fn start_creates_a_record_that_counts_zero() {
    let mut ctx = empty_slot(1_000_000, 70_490_880 / 100);
    assert_eq!(start_stuff_off(&mut ctx), Ok(()));
    assert_eq!(ctx.base_account, Some(BaseAccount { total_gifs: 0 }));
}

#[test]
fn start_charges_the_user_what_the_allocation_costs() {
    let mut ctx = empty_slot(100_000_000, 70_490_880);
    assert_eq!(start_stuff_off(&mut ctx), Ok(()));
    assert_eq!(ctx.user.lamports, 29_509_120);
    assert_eq!(ctx.rent_exempt_minimum, 70_490_880);
}

#[test]
fn start_goes_through_on_exact_funds() {
    let mut ctx = empty_slot(70_490_880, 70_490_880);
    assert_eq!(start_stuff_off(&mut ctx), Ok(()));
    assert_eq!(ctx.user.lamports, 0);
    assert_eq!(ctx.base_account, Some(BaseAccount { total_gifs: 0 }));
}

#[test]
fn start_goes_through_where_allocation_is_free() {
    let mut ctx = empty_slot(0, 0);
    assert_eq!(start_stuff_off(&mut ctx), Ok(()));
    assert_eq!(ctx.user.lamports, 0);
    assert_eq!(ctx.base_account, Some(BaseAccount { total_gifs: 0 }));
}

#[test]
fn start_fails_one_lamport_short() {
    let mut ctx = empty_slot(70_490_879, 70_490_880);
    assert_eq!(start_stuff_off(&mut ctx), Err(CounterError::InsufficientFunds));
    assert_eq!(ctx, empty_slot(70_490_879, 70_490_880));
}

#[test]
fn start_fails_on_a_record_in_place() {
    let before = StartStuffOff {
        base_account: Some(BaseAccount { total_gifs: 7 }),
        user: Signer { lamports: u64::MAX },
        rent_exempt_minimum: 1,
    };
    let mut ctx = before;
    assert_eq!(
        start_stuff_off(&mut ctx),
        Err(CounterError::AccountAlreadyInitialized)
    );
    assert_eq!(ctx, before);
}

#[test]
fn start_fails_on_a_record_that_counts_zero() {
    let mut ctx = empty_slot(10, 3);
    assert_eq!(start_stuff_off(&mut ctx), Ok(()));
    assert_eq!(
        start_stuff_off(&mut ctx),
        Err(CounterError::AccountAlreadyInitialized)
    );
    assert_eq!(ctx.base_account, Some(BaseAccount { total_gifs: 0 }));
    assert_eq!(ctx.user.lamports, 7);
}

#[test]
fn start_reports_a_record_in_place_before_a_lack_of_funds() {
    let before = StartStuffOff {
        base_account: Some(BaseAccount { total_gifs: 0 }),
        user: Signer { lamports: 0 },
        rent_exempt_minimum: 5,
    };
    let mut ctx = before;
    assert_eq!(
        start_stuff_off(&mut ctx),
        Err(CounterError::AccountAlreadyInitialized)
    );
    assert_eq!(ctx, before);
}

#[test]
fn add_gif_adds_one() {
    let mut ctx = AddGif {
        base_account: Some(BaseAccount { total_gifs: 41 }),
        writable: true,
    };
    assert_eq!(add_gif(&mut ctx), Ok(()));
    assert_eq!(ctx.base_account, Some(BaseAccount { total_gifs: 42 }));
    assert!(ctx.writable);
}

#[test]
fn add_gif_reaches_the_largest_count() {
    let mut ctx = AddGif {
        base_account: Some(BaseAccount { total_gifs: u64::MAX - 1 }),
        writable: true,
    };
    assert_eq!(add_gif(&mut ctx), Ok(()));
    assert_eq!(ctx.base_account, Some(BaseAccount { total_gifs: u64::MAX }));
}

#[test]
fn add_gif_fails_without_a_record() {
    let mut ctx = AddGif { base_account: None, writable: true };
    assert_eq!(add_gif(&mut ctx), Err(CounterError::AccountNotInitialized));
    assert_eq!(ctx, AddGif { base_account: None, writable: true });
}

#[test]
fn add_gif_fails_on_a_record_it_may_not_write() {
    let before = AddGif {
        base_account: Some(BaseAccount { total_gifs: 3 }),
        writable: false,
    };
    let mut ctx = before;
    assert_eq!(add_gif(&mut ctx), Err(CounterError::AccountNotWritable));
    assert_eq!(ctx, before);
}

#[test]
fn add_gif_refuses_a_full_record_it_may_not_write() {
    let before = AddGif {
        base_account: Some(BaseAccount { total_gifs: u64::MAX }),
        writable: false,
    };
    let mut ctx = before;
    assert_eq!(add_gif(&mut ctx), Err(CounterError::AccountNotWritable));
    assert_eq!(ctx, before);
}

#[test]
fn add_gif_reports_a_missing_record_before_a_lack_of_write_access() {
    let mut ctx = AddGif { base_account: None, writable: false };
    assert_eq!(add_gif(&mut ctx), Err(CounterError::AccountNotInitialized));
    assert_eq!(ctx.base_account, None);
}
