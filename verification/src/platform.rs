use vstd::prelude::*;

use crate::account::AccountId;

verus! {

/// Upper bound on the total platform fee: 1000 basis points, a 10% cap.
pub const MAX_PLATFORM_FEE_BPS: u16 = 1000;

/// Platform-wide configuration: fee destinations, the oracle's signing
/// identity, the fee schedule, the pause flag, settlement counters, and the
/// three-member admin signer set.  Created once and mutated only by
/// governance operations and by settlement (counters).
#[derive(Clone, Copy, Debug)]
pub struct PlatformConfig {
    /// Destination of the treasury share of every settled pot.
    pub treasury: AccountId,
    /// Destination of the referral share of every settled pot.
    pub referral_pool: AccountId,
    /// The oracle identity whose signature settles matches.
    pub verifier_pubkey: AccountId,
    /// Total platform fee in basis points of the pot.
    pub platform_fee_bps: u16,
    /// Treasury share in basis points of the pot.
    pub treasury_fee_bps: u16,
    /// Referral share in basis points of the pot.
    pub referral_fee_bps: u16,
    /// While set, match creation, joining and new session spending are
    /// rejected.
    pub is_paused: bool,
    /// Number of matches settled so far.
    pub total_matches: u64,
    /// Sum of the pots of all settled matches.
    pub total_volume: u64,
    /// The three admin identities; governance needs two distinct members.
    pub admin_signers: [AccountId; 3],
}

impl PlatformConfig {
    /// The fee schedule splits the whole platform fee between treasury and
    /// referral pool and respects the 10% cap.
    pub open spec fn fees_wf(self) -> bool {
        &&& self.treasury_fee_bps + self.referral_fee_bps == self.platform_fee_bps
        &&& self.platform_fee_bps <= MAX_PLATFORM_FEE_BPS
    }

    /// Membership in the admin signer set.
    pub open spec fn spec_is_admin(self, id: AccountId) -> bool {
        ||| self.admin_signers[0] == id
        ||| self.admin_signers[1] == id
        ||| self.admin_signers[2] == id
    }

    /// Whether `id` is one of the three admin signers.
    pub fn is_admin(&self, id: AccountId) -> (r: bool)
        ensures
            r == self.spec_is_admin(id),
    {
        self.admin_signers[0] == id || self.admin_signers[1] == id || self.admin_signers[2] == id
    }
}

/// Create the platform configuration: the reference fee schedule of 650
/// basis points total (550 treasury, 100 referral), unpaused, counters at
/// zero, and the given fee destinations, oracle identity and admin set.
pub fn initialize(
    treasury: AccountId,
    referral_pool: AccountId,
    verifier_pubkey: AccountId,
    admin1: AccountId,
    admin2: AccountId,
    admin3: AccountId,
) -> (config: PlatformConfig)
    ensures
        config.treasury == treasury,
        config.referral_pool == referral_pool,
        config.verifier_pubkey == verifier_pubkey,
        config.platform_fee_bps == 650,
        config.treasury_fee_bps == 550,
        config.referral_fee_bps == 100,
        !config.is_paused,
        config.total_matches == 0,
        config.total_volume == 0,
        config.admin_signers[0] == admin1,
        config.admin_signers[1] == admin2,
        config.admin_signers[2] == admin3,
        config.fees_wf(),
{
    PlatformConfig {
        treasury,
        referral_pool,
        verifier_pubkey,
        platform_fee_bps: 650,
        treasury_fee_bps: 550,
        referral_fee_bps: 100,
        is_paused: false,
        total_matches: 0,
        total_volume: 0,
        admin_signers: [admin1, admin2, admin3],
    }
}

} // verus!
