use vstd::prelude::*;

use crate::account::AccountId;
use crate::errors::PV3Error;
use crate::platform::{PlatformConfig, MAX_PLATFORM_FEE_BPS};
use crate::session::SessionVault;

verus! {

/// Minimum inactivity threshold for reclaiming a vault: 48 hours.
pub const MIN_RECOVERY_THRESHOLD_HOURS: u64 = 48;

/// The multisig gate every governance operation passes first, and the
/// error it reports: both signers must be members of the three-member
/// admin set, and they must be two distinct identities.  A call carrying
/// zero or one distinct valid admin signature is rejected here.
pub open spec fn spec_multisig_error(
    config: PlatformConfig,
    signer1: AccountId,
    signer2: AccountId,
) -> Option<PV3Error> {
    if !config.spec_is_admin(signer1) {
        Some(PV3Error::UnauthorizedAdmin)
    } else if !config.spec_is_admin(signer2) {
        Some(PV3Error::UnauthorizedAdmin)
    } else if signer1 == signer2 {
        Some(PV3Error::InsufficientAdminSignatures)
    } else {
        None
    }
}

/// Whether `signer1` and `signer2` are two distinct members of the admin
/// set: the authorization every governance operation requires.
pub open spec fn spec_multisig_ok(
    config: PlatformConfig,
    signer1: AccountId,
    signer2: AccountId,
) -> bool {
    spec_multisig_error(config, signer1, signer2) is None
}

/// A governance call is authorized exactly when its two signers are
/// distinct members of the three-member admin set; a call carrying fewer
/// than two distinct admin identities never passes.
pub proof fn lemma_multisig_authorization(config: PlatformConfig, signer1: AccountId, signer2: AccountId)
    ensures
        spec_multisig_ok(config, signer1, signer2) <==> (signer1 != signer2
            && config.spec_is_admin(signer1) && config.spec_is_admin(signer2)),
{
}

/// Check the 2-of-3 multisig gate, shared by all governance entry points.
pub fn check_multisig(config: &PlatformConfig, signer1: AccountId, signer2: AccountId) -> (r:
    Result<(), PV3Error>)
    ensures
        spec_multisig_error(*config, signer1, signer2) matches Some(er) ==> r matches Err(e) && e
            == er,
        spec_multisig_error(*config, signer1, signer2) is None <==> r is Ok,
{
    if !config.is_admin(signer1) {
        return Err(PV3Error::UnauthorizedAdmin);
    }
    if !config.is_admin(signer2) {
        return Err(PV3Error::UnauthorizedAdmin);
    }
    if signer1 == signer2 {
        return Err(PV3Error::InsufficientAdminSignatures);
    }
    Ok(())
}

/// The reason to reject a pause, if any: the multisig gate, then the
/// platform must not already be paused (the switch is edge-triggered).
pub open spec fn spec_pause_error(
    config: PlatformConfig,
    signer1: AccountId,
    signer2: AccountId,
) -> Option<PV3Error> {
    let gate = spec_multisig_error(config, signer1, signer2);
    if gate is Some {
        gate
    } else if config.is_paused {
        Some(PV3Error::PlatformPaused)
    } else {
        None
    }
}

/// Pause the platform: match creation, joining and new session spending
/// are rejected while the flag is set.  Requires two distinct admin
/// signers; pausing an already paused platform is rejected.
pub fn emergency_pause(config: &mut PlatformConfig, signer1: AccountId, signer2: AccountId) -> (r:
    Result<(), PV3Error>)
    ensures
        spec_pause_error(*old(config), signer1, signer2) matches Some(er) ==> r matches Err(e) && e
            == er && *final(config) == *old(config),
        spec_pause_error(*old(config), signer1, signer2) is None <==> r is Ok,
        r is Ok ==> *final(config) == (PlatformConfig { is_paused: true, ..*old(config) }),
{
    match check_multisig(config, signer1, signer2) {
        Ok(()) => {},
        Err(e) => {
            return Err(e);
        },
    }
    if config.is_paused {
        return Err(PV3Error::PlatformPaused);
    }
    config.is_paused = true;
    Ok(())
}

/// The reason to reject an unpause, if any: the multisig gate, then the
/// platform must actually be paused (the switch is edge-triggered).
pub open spec fn spec_unpause_error(
    config: PlatformConfig,
    signer1: AccountId,
    signer2: AccountId,
) -> Option<PV3Error> {
    let gate = spec_multisig_error(config, signer1, signer2);
    if gate is Some {
        gate
    } else if !config.is_paused {
        Some(PV3Error::PlatformPaused)
    } else {
        None
    }
}

/// Clear the pause flag.  Requires two distinct admin signers; unpausing
/// a platform that is not paused is rejected.
pub fn emergency_unpause(config: &mut PlatformConfig, signer1: AccountId, signer2: AccountId) -> (r:
    Result<(), PV3Error>)
    ensures
        spec_unpause_error(*old(config), signer1, signer2) matches Some(er) ==> r matches Err(e)
            && e == er && *final(config) == *old(config),
        spec_unpause_error(*old(config), signer1, signer2) is None <==> r is Ok,
        r is Ok ==> *final(config) == (PlatformConfig { is_paused: false, ..*old(config) }),
{
    match check_multisig(config, signer1, signer2) {
        Ok(()) => {},
        Err(e) => {
            return Err(e);
        },
    }
    if !config.is_paused {
        return Err(PV3Error::PlatformPaused);
    }
    config.is_paused = false;
    Ok(())
}

/// The reason to reject a fee update, if any: the multisig gate, the 10%
/// cap, and the requirement that the treasury and referral rates split
/// the platform rate exactly.
pub open spec fn spec_update_fees_error(
    config: PlatformConfig,
    signer1: AccountId,
    signer2: AccountId,
    platform_fee_bps: u16,
    treasury_fee_bps: u16,
    referral_fee_bps: u16,
) -> Option<PV3Error> {
    let gate = spec_multisig_error(config, signer1, signer2);
    if gate is Some {
        gate
    } else if platform_fee_bps > MAX_PLATFORM_FEE_BPS {
        Some(PV3Error::InvalidAmount)
    } else if treasury_fee_bps + referral_fee_bps != platform_fee_bps {
        Some(PV3Error::InvalidAmount)
    } else {
        None
    }
}

/// Replace the whole fee schedule atomically.  Requires two distinct
/// admin signers; a schedule over the 10% cap or one whose parts do not
/// sum to the platform rate is rejected and the configuration is
/// unchanged.  The new schedule applies to every match settled
/// thereafter.
pub fn update_fees(
    config: &mut PlatformConfig,
    signer1: AccountId,
    signer2: AccountId,
    platform_fee_bps: u16,
    treasury_fee_bps: u16,
    referral_fee_bps: u16,
) -> (r: Result<(), PV3Error>)
    ensures
        spec_update_fees_error(
            *old(config),
            signer1,
            signer2,
            platform_fee_bps,
            treasury_fee_bps,
            referral_fee_bps,
        ) matches Some(er) ==> r matches Err(e) && e == er && *final(config) == *old(config),
        spec_update_fees_error(
            *old(config),
            signer1,
            signer2,
            platform_fee_bps,
            treasury_fee_bps,
            referral_fee_bps,
        ) is None <==> r is Ok,
        r is Ok ==> *final(config) == (PlatformConfig {
            platform_fee_bps,
            treasury_fee_bps,
            referral_fee_bps,
            ..*old(config)
        }),
        r is Ok ==> final(config).fees_wf(),
{
    match check_multisig(config, signer1, signer2) {
        Ok(()) => {},
        Err(e) => {
            return Err(e);
        },
    }
    if platform_fee_bps > MAX_PLATFORM_FEE_BPS {
        return Err(PV3Error::InvalidAmount);
    }
    if (treasury_fee_bps as u32) + (referral_fee_bps as u32) != (platform_fee_bps as u32) {
        return Err(PV3Error::InvalidAmount);
    }
    config.platform_fee_bps = platform_fee_bps;
    config.treasury_fee_bps = treasury_fee_bps;
    config.referral_fee_bps = referral_fee_bps;
    Ok(())
}

/// What a vault recovery moves: the vault's entire balance, to the named
/// destination (the vault owner or the platform treasury); the host
/// ledger performs the transfer after the operation succeeds.
#[derive(Clone, Copy, Debug, PartialEq, Eq, Structural)]
pub struct VaultRecovery {
    /// Where the recovered funds go.
    pub destination: AccountId,
    /// The whole balance the vault held.
    pub amount: u64,
}

/// The reason to reject a vault recovery, if any: the multisig gate, the
/// 48-hour floor on the threshold, the required inactivity span, and a
/// non-empty vault.
pub open spec fn spec_recover_error(
    config: PlatformConfig,
    vault: SessionVault,
    signer1: AccountId,
    signer2: AccountId,
    now: i64,
    inactivity_threshold_hours: u64,
) -> Option<PV3Error> {
    let gate = spec_multisig_error(config, signer1, signer2);
    if gate is Some {
        gate
    } else if inactivity_threshold_hours < MIN_RECOVERY_THRESHOLD_HOURS {
        Some(PV3Error::InvalidAmount)
    } else if now - vault.last_activity < inactivity_threshold_hours * 3600 {
        Some(PV3Error::InvalidAmount)
    } else if vault.balance == 0 {
        Some(PV3Error::InvalidAmount)
    } else {
        None
    }
}

/// Reclaim the whole balance of a vault abandoned past the inactivity
/// threshold, without the owner's consent: gated by two distinct admin
/// signers, a threshold of at least 48 hours, and the vault's last
/// activity lying at least that far in the past.  The balance is zeroed,
/// counted as withdrawn, and handed to the host ledger for transfer to
/// the destination.  On any error nothing is changed.
pub fn recover_inactive_vault(
    config: &PlatformConfig,
    vault: &mut SessionVault,
    destination: AccountId,
    signer1: AccountId,
    signer2: AccountId,
    now: i64,
    inactivity_threshold_hours: u64,
) -> (r: Result<VaultRecovery, PV3Error>)
    requires
        old(vault).wf(),
        inactivity_threshold_hours * 3600 <= i64::MAX,
        i64::MIN <= now - old(vault).last_activity <= i64::MAX,
    ensures
        spec_recover_error(*config, *old(vault), signer1, signer2, now, inactivity_threshold_hours)
            matches Some(er) ==> r matches Err(e) && e == er && *final(vault) == *old(vault),
        spec_recover_error(*config, *old(vault), signer1, signer2, now, inactivity_threshold_hours)
            is None <==> r is Ok,
        r matches Ok(recovery) ==> {
            &&& recovery.destination == destination
            &&& recovery.amount == old(vault).balance
            &&& *final(vault) == (SessionVault {
                balance: 0,
                total_withdrawn: (old(vault).total_withdrawn + old(vault).balance) as u64,
                last_activity: now,
                ..*old(vault)
            })
        },
        final(vault).wf(),
        final(vault).spec_debited() == old(vault).spec_debited(),
{
    match check_multisig(config, signer1, signer2) {
        Ok(()) => {},
        Err(e) => {
            return Err(e);
        },
    }
    if inactivity_threshold_hours < MIN_RECOVERY_THRESHOLD_HOURS {
        return Err(PV3Error::InvalidAmount);
    }
    let threshold_seconds = inactivity_threshold_hours * 3600;
    let inactivity_duration = now - vault.last_activity;
    if inactivity_duration < threshold_seconds as i64 {
        return Err(PV3Error::InvalidAmount);
    }
    if vault.balance == 0 {
        return Err(PV3Error::InvalidAmount);
    }
    let recovery_amount = vault.balance;
    vault.balance = 0;
    vault.total_withdrawn = vault.total_withdrawn + recovery_amount;
    vault.last_activity = now;
    Ok(VaultRecovery { destination, amount: recovery_amount })
}

} // verus!
