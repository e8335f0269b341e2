use pv3::errors::PV3Error;
use pv3::session::{create_session, deposit_to_session, use_session_funds, withdraw_from_session};

const USER: u64 = 10;

#[test]
fn create_session_starts_empty() {
    let v = create_session(USER, 50);
    assert_eq!(v.owner, USER);
    assert_eq!(v.balance, 0);
    assert_eq!(v.total_deposited, 0);
    assert_eq!(v.total_withdrawn, 0);
    assert_eq!(v.matches_played, 0);
    assert_eq!(v.created_at, 50);
    assert_eq!(v.last_activity, 50);
}

#[test]
fn deposit_credits_balance_and_tally() {
    let mut v = create_session(USER, 0);
    deposit_to_session(&mut v, 500, 7).unwrap();
    assert_eq!(v.balance, 500);
    assert_eq!(v.total_deposited, 500);
    assert_eq!(v.last_activity, 7);
    deposit_to_session(&mut v, 250, 9).unwrap();
    assert_eq!(v.balance, 750);
    assert_eq!(v.total_deposited, 750);
}

#[test]
fn deposit_rejects_zero_amount() {
    let mut v = create_session(USER, 0);
    let before = v;
    let r = deposit_to_session(&mut v, 0, 7);
    assert_eq!(r.unwrap_err(), PV3Error::InvalidAmount);
    assert_eq!(v, before);
}

#[test]
fn withdraw_debits_balance_and_tally() {
    let mut v = create_session(USER, 0);
    deposit_to_session(&mut v, 500, 1).unwrap();
    withdraw_from_session(&mut v, 200, 2).unwrap();
    assert_eq!(v.balance, 300);
    assert_eq!(v.total_withdrawn, 200);
    assert_eq!(v.last_activity, 2);
}

#[test]
fn withdraw_rejects_uncovered_amount() {
    let mut v = create_session(USER, 0);
    deposit_to_session(&mut v, 100, 1).unwrap();
    let before = v;
    let r = withdraw_from_session(&mut v, 101, 2);
    assert_eq!(r.unwrap_err(), PV3Error::InsufficientSessionBalance);
    assert_eq!(v, before);
    let zero = withdraw_from_session(&mut v, 0, 2);
    assert_eq!(zero.unwrap_err(), PV3Error::InvalidAmount);
    assert_eq!(v, before);
}

#[test]
fn debit_counts_match_and_keeps_tallies() {
    let mut v = create_session(USER, 0);
    deposit_to_session(&mut v, 1_000, 1).unwrap();
    use_session_funds(&mut v, 400, 2).unwrap();
    assert_eq!(v.balance, 600);
    assert_eq!(v.matches_played, 1);
    assert_eq!(v.total_deposited, 1_000);
    assert_eq!(v.total_withdrawn, 0);
    assert_eq!(v.last_activity, 2);
}

#[test]
fn debit_rejects_uncovered_amount() {
    let mut v = create_session(USER, 0);
    deposit_to_session(&mut v, 100, 1).unwrap();
    let before = v;
    let r = use_session_funds(&mut v, 200, 2);
    assert_eq!(r.unwrap_err(), PV3Error::InsufficientSessionBalance);
    assert_eq!(v, before);
}

#[test]
fn balance_never_negative_across_mixed_operations() {
    // Every rejected operation leaves the vault untouched and the ledger
    // equation holds after every step.
    let mut v = create_session(USER, 0);
    let steps: Vec<(u8, u64)> = vec![
        (0, 300), // deposit
        (1, 100), // withdraw
        (2, 150), // debit
        (1, 100), // withdraw: would overdraw, rejected
        (2, 60),  // debit: would overdraw, rejected
        (0, 10),  // deposit
    ];
    let mut now: i64 = 1;
    for (kind, amount) in steps {
        let before = v;
        let r = match kind {
            0 => deposit_to_session(&mut v, amount, now),
            1 => withdraw_from_session(&mut v, amount, now),
            _ => use_session_funds(&mut v, amount, now),
        };
        if r.is_err() {
            assert_eq!(v, before);
        }
        assert!(v.balance + v.total_withdrawn <= v.total_deposited);
        now += 1;
    }
    assert_eq!(v.balance, 60);
    assert_eq!(v.total_deposited, 310);
    assert_eq!(v.total_withdrawn, 100);
    assert_eq!(v.matches_played, 1);
}
