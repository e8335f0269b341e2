use pv3::admin::{
    check_multisig, emergency_pause, emergency_unpause, recover_inactive_vault, update_fees,
};
use pv3::errors::PV3Error;
use pv3::platform::{initialize, PlatformConfig};
use pv3::session::create_session;

const TREASURY: u64 = 1;
const REFERRAL: u64 = 2;
const VERIFIER: u64 = 42;
const ADMIN1: u64 = 101;
const ADMIN2: u64 = 102;
const ADMIN3: u64 = 103;
const OUTSIDER: u64 = 999;

fn setup_config() -> PlatformConfig {
    initialize(TREASURY, REFERRAL, VERIFIER, ADMIN1, ADMIN2, ADMIN3)
}

#[test]
fn initialize_sets_reference_schedule() {
    let config = setup_config();
    assert_eq!(config.platform_fee_bps, 650);
    assert_eq!(config.treasury_fee_bps, 550);
    assert_eq!(config.referral_fee_bps, 100);
    assert!(!config.is_paused);
    assert_eq!(config.total_matches, 0);
    assert_eq!(config.total_volume, 0);
    assert_eq!(config.admin_signers, [ADMIN1, ADMIN2, ADMIN3]);
}

#[test]
fn multisig_accepts_two_distinct_admins() {
    let config = setup_config();
    assert!(check_multisig(&config, ADMIN1, ADMIN2).is_ok());
    assert!(check_multisig(&config, ADMIN3, ADMIN1).is_ok());
}

#[test]
fn multisig_rejects_outsider() {
    let config = setup_config();
    assert_eq!(
        check_multisig(&config, OUTSIDER, ADMIN2).unwrap_err(),
        PV3Error::UnauthorizedAdmin
    );
    assert_eq!(
        check_multisig(&config, ADMIN1, OUTSIDER).unwrap_err(),
        PV3Error::UnauthorizedAdmin
    );
}

#[test]
fn multisig_rejects_single_signer_used_twice() {
    let config = setup_config();
    assert_eq!(
        check_multisig(&config, ADMIN2, ADMIN2).unwrap_err(),
        PV3Error::InsufficientAdminSignatures
    );
}

#[test]
fn pause_and_unpause_are_edge_triggered() {
    let mut config = setup_config();
    assert_eq!(
        emergency_unpause(&mut config, ADMIN1, ADMIN2).unwrap_err(),
        PV3Error::PlatformPaused
    );
    emergency_pause(&mut config, ADMIN1, ADMIN2).unwrap();
    assert!(config.is_paused);
    assert_eq!(
        emergency_pause(&mut config, ADMIN1, ADMIN2).unwrap_err(),
        PV3Error::PlatformPaused
    );
    emergency_unpause(&mut config, ADMIN2, ADMIN3).unwrap();
    assert!(!config.is_paused);
}

#[test]
fn pause_rejects_without_two_distinct_admins() {
    let mut config = setup_config();
    assert_eq!(
        emergency_pause(&mut config, ADMIN1, ADMIN1).unwrap_err(),
        PV3Error::InsufficientAdminSignatures
    );
    assert_eq!(
        emergency_pause(&mut config, OUTSIDER, ADMIN1).unwrap_err(),
        PV3Error::UnauthorizedAdmin
    );
    assert!(!config.is_paused);
}

#[test]
fn update_fees_replaces_schedule() {
    let mut config = setup_config();
    update_fees(&mut config, ADMIN1, ADMIN3, 800, 700, 100).unwrap();
    assert_eq!(config.platform_fee_bps, 800);
    assert_eq!(config.treasury_fee_bps, 700);
    assert_eq!(config.referral_fee_bps, 100);
}

#[test]
fn update_fees_rejects_cap_violation() {
    let mut config = setup_config();
    let r = update_fees(&mut config, ADMIN1, ADMIN2, 1001, 901, 100);
    assert_eq!(r.unwrap_err(), PV3Error::InvalidAmount);
    assert_eq!(config.platform_fee_bps, 650);
    assert_eq!(config.treasury_fee_bps, 550);
    assert_eq!(config.referral_fee_bps, 100);
}

#[test]
fn update_fees_rejects_mismatched_split() {
    let mut config = setup_config();
    let r = update_fees(&mut config, ADMIN1, ADMIN2, 650, 500, 100);
    assert_eq!(r.unwrap_err(), PV3Error::InvalidAmount);
    assert_eq!(config.treasury_fee_bps, 550);
}

#[test]
fn update_fees_rejects_without_multisig() {
    let mut config = setup_config();
    let r = update_fees(&mut config, ADMIN1, ADMIN1, 800, 700, 100);
    assert_eq!(r.unwrap_err(), PV3Error::InsufficientAdminSignatures);
    assert_eq!(config.platform_fee_bps, 650);
}

#[test]
fn update_fees_accepts_exact_cap() {
    let mut config = setup_config();
    update_fees(&mut config, ADMIN2, ADMIN3, 1000, 900, 100).unwrap();
    assert_eq!(config.platform_fee_bps, 1000);
}

#[test]
fn recover_inactive_vault_moves_whole_balance() {
    // Scenario: 5.0 tokens, last activity 100 hours ago, 48-hour
    // threshold: two distinct admins recover everything.
    let config = setup_config();
    let mut vault = create_session(7, 0);
    vault.balance = 5_000_000_000;
    vault.total_deposited = 5_000_000_000;
    let now: i64 = 100 * 3600;
    let recovery =
        recover_inactive_vault(&config, &mut vault, TREASURY, ADMIN1, ADMIN2, now, 48).unwrap();
    assert_eq!(recovery.amount, 5_000_000_000);
    assert_eq!(recovery.destination, TREASURY);
    assert_eq!(vault.balance, 0);
    assert_eq!(vault.total_withdrawn, 5_000_000_000);
    assert_eq!(vault.last_activity, now);
}

#[test]
fn recover_rejects_threshold_below_floor() {
    // The 10-hour threshold is under the 48-hour floor, so the recovery
    // fails even with two valid admin signatures and enough inactivity.
    let config = setup_config();
    let mut vault = create_session(7, 0);
    vault.balance = 5_000_000_000;
    vault.total_deposited = 5_000_000_000;
    let before = vault;
    let now: i64 = 100 * 3600;
    let r = recover_inactive_vault(&config, &mut vault, TREASURY, ADMIN1, ADMIN2, now, 10);
    assert_eq!(r.unwrap_err(), PV3Error::InvalidAmount);
    assert_eq!(vault, before);
}

#[test]
fn recover_rejects_active_vault() {
    let config = setup_config();
    let mut vault = create_session(7, 0);
    vault.balance = 1_000_000_000;
    vault.total_deposited = 1_000_000_000;
    let now: i64 = 47 * 3600;
    let r = recover_inactive_vault(&config, &mut vault, TREASURY, ADMIN1, ADMIN2, now, 48);
    assert_eq!(r.unwrap_err(), PV3Error::InvalidAmount);
    assert_eq!(vault.balance, 1_000_000_000);
}

#[test]
fn recover_rejects_empty_vault() {
    let config = setup_config();
    let mut vault = create_session(7, 0);
    let now: i64 = 100 * 3600;
    let r = recover_inactive_vault(&config, &mut vault, TREASURY, ADMIN1, ADMIN2, now, 48);
    assert_eq!(r.unwrap_err(), PV3Error::InvalidAmount);
}

#[test]
fn recover_rejects_without_multisig() {
    let config = setup_config();
    let mut vault = create_session(7, 0);
    vault.balance = 1_000_000_000;
    vault.total_deposited = 1_000_000_000;
    let now: i64 = 100 * 3600;
    let one_signer = recover_inactive_vault(&config, &mut vault, TREASURY, ADMIN1, ADMIN1, now, 48);
    assert_eq!(one_signer.unwrap_err(), PV3Error::InsufficientAdminSignatures);
    let outsider = recover_inactive_vault(&config, &mut vault, TREASURY, OUTSIDER, ADMIN2, now, 48);
    assert_eq!(outsider.unwrap_err(), PV3Error::UnauthorizedAdmin);
    assert_eq!(vault.balance, 1_000_000_000);
}
