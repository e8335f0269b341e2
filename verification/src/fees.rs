use vstd::prelude::*;

use vstd::arithmetic::div_mod::{
    lemma_div_is_ordered, lemma_div_multiples_vanish, lemma_div_pos_is_pos,
    lemma_fundamental_div_mod, lemma_fundamental_div_mod_converse, lemma_mod_pos_bound,
};

verus! {

/// Basis-point denominator: 10000 basis points make the whole pot.
pub const BPS_DENOMINATOR: u64 = 10000;

/// The share of `pot` that `bps` basis points name, rounded down.
pub open spec fn spec_fee(pot: u64, bps: u16) -> int {
    (pot * bps) / (BPS_DENOMINATOR as int)
}

/// The split of a settled pot: the three fee figures and the winner's
/// share.  The winner receives the pot minus the whole platform fee; the
/// treasury and referral shares are computed independently from the pot,
/// so together they may undershoot the platform fee by one rounding unit,
/// which stays in the escrow.
#[derive(Clone, Copy, Debug, PartialEq, Eq, Structural)]
pub struct FeeSplit {
    /// Total platform fee deducted from the winner's share.
    pub platform_fee: u64,
    /// Share sent to the platform treasury.
    pub treasury_fee: u64,
    /// Share sent to the referral pool.
    pub referral_fee: u64,
    /// What the winner receives: the pot minus the platform fee.
    pub winner_amount: u64,
}

/// A basis-point share of the pot is between zero and the whole pot.
pub proof fn lemma_fee_in_pot(pot: u64, bps: u16)
    requires
        bps <= BPS_DENOMINATOR,
    ensures
        0 <= spec_fee(pot, bps) <= pot,
{
    let d = BPS_DENOMINATOR as int;
    assert(pot * bps >= 0) by (nonlinear_arith);
    lemma_div_pos_is_pos(pot * bps, d);
    assert(pot * bps <= pot * d) by (nonlinear_arith)
        requires
            bps <= d,
            pot >= 0,
    ;
    lemma_div_is_ordered(pot * bps, pot * d, d);
    lemma_div_multiples_vanish(pot as int, d);
    assert(pot * d == d * pot) by (nonlinear_arith);
}

/// Rounding the treasury and referral shares down independently loses at
/// most one unit against the platform fee computed from the same pot:
/// `0 <= fee(platform) - fee(treasury) - fee(referral) <= 1` whenever the
/// two partial rates sum to the platform rate.
pub proof fn lemma_fee_split_remainder(pot: u64, platform_bps: u16, treasury_bps: u16, referral_bps: u16)
    requires
        treasury_bps + referral_bps == platform_bps,
    ensures
        0 <= spec_fee(pot, platform_bps) - spec_fee(pot, treasury_bps) - spec_fee(pot, referral_bps) <= 1,
{
    let d = BPS_DENOMINATOR as int;
    let a = pot * treasury_bps;
    let b = pot * referral_bps;
    assert(pot * platform_bps == a + b) by (nonlinear_arith)
        requires
            treasury_bps + referral_bps == platform_bps,
            a == pot * treasury_bps,
            b == pot * referral_bps,
    ;
    assert(a >= 0) by (nonlinear_arith)
        requires
            a == pot * treasury_bps,
    ;
    assert(b >= 0) by (nonlinear_arith)
        requires
            b == pot * referral_bps,
    ;
    lemma_fundamental_div_mod(a, d);
    lemma_fundamental_div_mod(b, d);
    lemma_mod_pos_bound(a, d);
    lemma_mod_pos_bound(b, d);
    let qa = a / d;
    let qb = b / d;
    let ra = a % d;
    let rb = b % d;
    if ra + rb < d {
        assert(a + b == (qa + qb) * d + (ra + rb)) by (nonlinear_arith)
            requires
                a == d * qa + ra,
                b == d * qb + rb,
        ;
        lemma_fundamental_div_mod_converse(a + b, d, qa + qb, ra + rb);
    } else {
        assert(a + b == (qa + qb + 1) * d + (ra + rb - d)) by (nonlinear_arith)
            requires
                a == d * qa + ra,
                b == d * qb + rb,
        ;
        lemma_fundamental_div_mod_converse(a + b, d, qa + qb + 1, ra + rb - d);
    }
}

/// Split a settled pot according to the configured fee schedule, in the
/// fixed order platform fee, treasury fee, referral fee, winner amount,
/// each rounded down independently from the whole pot.
pub fn split_pot(total_pot: u64, platform_fee_bps: u16, treasury_fee_bps: u16, referral_fee_bps: u16) -> (s: FeeSplit)
    requires
        treasury_fee_bps + referral_fee_bps == platform_fee_bps,
        platform_fee_bps <= BPS_DENOMINATOR,
        total_pot * platform_fee_bps <= u64::MAX,
    ensures
        s.platform_fee == spec_fee(total_pot, platform_fee_bps),
        s.treasury_fee == spec_fee(total_pot, treasury_fee_bps),
        s.referral_fee == spec_fee(total_pot, referral_fee_bps),
        s.winner_amount == total_pot - s.platform_fee,
        s.treasury_fee + s.referral_fee <= s.platform_fee,
        s.platform_fee - s.treasury_fee - s.referral_fee <= 1,
        s.winner_amount + s.treasury_fee + s.referral_fee <= total_pot,
{
    proof {
        assert(total_pot * treasury_fee_bps <= total_pot * platform_fee_bps) by (nonlinear_arith)
            requires
                treasury_fee_bps <= platform_fee_bps,
                total_pot >= 0,
        ;
        assert(total_pot * referral_fee_bps <= total_pot * platform_fee_bps) by (nonlinear_arith)
            requires
                referral_fee_bps <= platform_fee_bps,
                total_pot >= 0,
        ;
        lemma_fee_in_pot(total_pot, platform_fee_bps);
        lemma_fee_split_remainder(total_pot, platform_fee_bps, treasury_fee_bps, referral_fee_bps);
    }
    let platform_fee = (total_pot * (platform_fee_bps as u64)) / BPS_DENOMINATOR;
    let treasury_fee = (total_pot * (treasury_fee_bps as u64)) / BPS_DENOMINATOR;
    let referral_fee = (total_pot * (referral_fee_bps as u64)) / BPS_DENOMINATOR;
    let winner_amount = total_pot - platform_fee;
    FeeSplit { platform_fee, treasury_fee, referral_fee, winner_amount }
}

} // verus!
