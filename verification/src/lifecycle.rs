use vstd::prelude::*;

use crate::account::AccountId;
use crate::errors::PV3Error;
use crate::fees::{spec_fee, split_pot, FeeSplit};
use crate::oracle::{
    create_result_message, spec_result_message, spec_verification_error,
    verify_ed25519_signature, Instruction, ED25519_PROGRAM_ID,
};
use crate::platform::PlatformConfig;
use crate::session::{use_session_funds, vault_step, SessionVault, VaultOp};

verus! {

/// Minimum stake: 0.1 token in the ledger's native base units.
pub const MIN_WAGER: u64 = 100_000_000;

/// Maximum stake: 10 tokens in the ledger's native base units.
pub const MAX_WAGER: u64 = 10_000_000_000;

/// Where a match is in its life.  `Completed` and `Refunded` are terminal;
/// `Cancelled` is part of the status set but no operation currently sets
/// it, and a cancelled match can only be refunded.
#[derive(Clone, Copy, Debug, PartialEq, Eq, Structural)]
pub enum MatchStatus {
    /// Created and funded by the creator; open for a second player.
    WaitingForPlayer,
    /// Joined and fully funded; awaiting the oracle's result.
    InProgress,
    /// Settled exactly once by an oracle-attested result.
    Completed,
    /// Marked cancelled; eligible for a refund and nothing else.
    Cancelled,
    /// All stakes returned to their contributors.
    Refunded,
}

/// How a participant funds their stake: a direct ledger transfer from
/// their wallet, or a debit from their prepaid session vault.
#[derive(Clone, Copy, Debug, PartialEq, Eq, Structural)]
pub enum FundingSource {
    /// The host ledger moves the stake straight from the participant.
    Direct,
    /// The stake is debited from the participant's session vault.
    Session,
}

/// One wager's record.
#[derive(Debug)]
pub struct Match {
    /// Who opened the match and staked first.
    pub creator: AccountId,
    /// The second participant, once someone joined.
    pub joiner: Option<AccountId>,
    /// Which game the wager is about; opaque to the engine.
    pub game_id: String,
    /// The stake each participant puts up.
    pub wager_amount: u64,
    /// The sum at stake: one wager per participant so far.
    pub total_pot: u64,
    /// After this time an unsettled match can only be refunded.
    pub expiry_time: i64,
    /// Where the match is in its life.
    pub status: MatchStatus,
    /// The oracle-attested winner, set exactly when the match completes.
    pub winner: Option<AccountId>,
    /// When the match was created.
    pub created_at: i64,
    /// The oracle-attested result hash, set exactly when the match
    /// completes.
    pub result_hash: Option<Vec<u8>>,
}

/// The ledger sub-account holding one match's stakes, together with the
/// running tallies of every movement in and out of it over its life.
#[derive(Clone, Copy, Debug, PartialEq, Eq, Structural)]
pub struct Escrow {
    /// Funds currently held for the match.
    pub balance: u64,
    /// Sum of all movements into the escrow.
    pub total_in: u64,
    /// Sum of all movements out of the escrow.
    pub total_out: u64,
}

impl Escrow {
    /// No movement is lost: whatever entered is either still held or left
    /// through a recorded payout.
    pub open spec fn conserved(self) -> bool {
        self.total_out + self.balance == self.total_in
    }
}

impl Match {
    /// How many stakes the pot holds.
    pub open spec fn participants(self) -> int {
        if self.joiner is Some {
            2
        } else {
            1
        }
    }

    /// Structural consistency of one match record.
    pub open spec fn wf(self) -> bool {
        &&& MIN_WAGER <= self.wager_amount <= MAX_WAGER
        &&& self.total_pot == self.wager_amount * self.participants()
        &&& (self.winner is Some <==> self.status is Completed)
        &&& (self.result_hash is Some <==> self.status is Completed)
        &&& (self.status is WaitingForPlayer ==> self.joiner is None)
        &&& (self.status is InProgress || self.status is Completed ==> self.joiner is Some)
        &&& (self.winner matches Some(w) ==> w == self.creator || self.joiner == Some(w))
        &&& (self.joiner matches Some(j) ==> j != self.creator)
    }
}

/// Consistency of a match with its escrow: the record is well formed, the
/// escrow's tallies balance, everything ever contributed equals the pot,
/// the full pot is held until a terminal status, a refund drains the
/// escrow completely, and a settlement leaves at most one rounding unit
/// behind.
pub open spec fn match_escrow_wf(m: Match, e: Escrow) -> bool {
    &&& m.wf()
    &&& e.conserved()
    &&& e.total_in == m.total_pot
    &&& (m.status is WaitingForPlayer || m.status is InProgress || m.status is Cancelled
        ==> e.balance == e.total_in)
    &&& (m.status is Refunded ==> e.balance == 0)
    &&& (m.status is Completed ==> e.balance <= 1)
}

/// Conservation of funds: for any consistent match and escrow, the
/// movements out of the escrow plus what it still holds equal the
/// movements into it.  A refunded match has returned every unit; a
/// completed match has paid out all but at most one rounding unit.
pub proof fn lemma_escrow_conservation(m: Match, e: Escrow)
    requires
        match_escrow_wf(m, e),
    ensures
        e.total_out + e.balance == e.total_in,
        m.status is Refunded ==> e.total_out == e.total_in,
        m.status is Completed ==> e.total_in - e.total_out <= 1,
{
}

/// The status transitions an operation may take in one step: stay put,
/// open a waiting match to play or refund it, settle or refund a running
/// match, or refund a cancelled one.
pub open spec fn status_step(pre: MatchStatus, post: MatchStatus) -> bool {
    ||| post == pre
    ||| (pre is WaitingForPlayer && (post is InProgress || post is Refunded))
    ||| (pre is InProgress && (post is Completed || post is Refunded))
    ||| (pre is Cancelled && post is Refunded)
}

/// Along any chain of permitted steps, a completed match stays completed.
pub proof fn lemma_completed_is_terminal(trace: Seq<MatchStatus>, i: int, j: int)
    requires
        forall|k: int| 0 <= k < trace.len() - 1 ==> #[trigger] status_step(trace[k], trace[k + 1]),
        0 <= i <= j < trace.len(),
        trace[i] is Completed,
    ensures
        trace[j] is Completed,
    decreases j - i,
{
    if i < j {
        assert(status_step(trace[i], trace[i + 1]));
        lemma_completed_is_terminal(trace, i + 1, j);
    }
}

/// Exactly-once settlement: along any chain of permitted steps, the
/// status enters `Completed` at most once — two distinct entering steps
/// cannot both occur.
pub proof fn lemma_settlement_at_most_once(trace: Seq<MatchStatus>, i1: int, i2: int)
    requires
        forall|k: int| 0 <= k < trace.len() - 1 ==> #[trigger] status_step(trace[k], trace[k + 1]),
        0 <= i1 < i2,
        i2 + 1 < trace.len(),
        !(trace[i1] is Completed),
        trace[i1 + 1] is Completed,
        trace[i2 + 1] is Completed,
    ensures
        trace[i2] is Completed,
{
    lemma_completed_is_terminal(trace, i1 + 1, i2);
}

/// The first reason to reject a match creation, if any: the pause flag,
/// the wager bounds, the expiry check, then cover in the session vault
/// when that is the funding source.
pub open spec fn spec_create_match_error(
    config: PlatformConfig,
    vault: Option<SessionVault>,
    wager_amount: u64,
    expiry_time: i64,
    now: i64,
    funding: FundingSource,
) -> Option<PV3Error> {
    if config.is_paused {
        Some(PV3Error::PlatformPaused)
    } else if wager_amount < MIN_WAGER {
        Some(PV3Error::WagerTooLow)
    } else if wager_amount > MAX_WAGER {
        Some(PV3Error::WagerTooHigh)
    } else if expiry_time <= now {
        Some(PV3Error::InvalidExpiryTime)
    } else if funding is Session && (vault matches Some(v) && v.balance < wager_amount) {
        Some(PV3Error::InsufficientSessionBalance)
    } else {
        None
    }
}

/// Open a match: validate the platform state and the wager terms, take
/// the creator's stake (from their session vault, or noting the direct
/// transfer the host ledger performs), and return the new record in
/// `WaitingForPlayer` with its funded escrow.  On any error nothing is
/// changed.
pub fn create_match(
    config: &PlatformConfig,
    vault: &mut Option<SessionVault>,
    creator: AccountId,
    game_id: String,
    wager_amount: u64,
    expiry_time: i64,
    now: i64,
    funding: FundingSource,
) -> (r: Result<(Match, Escrow), PV3Error>)
    requires
        (*old(vault)) matches Some(v) ==> v.wf(),
        funding is Session ==> (*old(vault)) is Some,
    ensures
        spec_create_match_error(*config, *old(vault), wager_amount, expiry_time, now, funding)
            matches Some(er) ==> r matches Err(e) && e == er && *final(vault) == *old(vault),
        spec_create_match_error(*config, *old(vault), wager_amount, expiry_time, now, funding)
            is None <==> r is Ok,
        r matches Ok((m, e)) ==> {
            &&& m.creator == creator
            &&& m.joiner is None
            &&& m.game_id@ == game_id@
            &&& m.wager_amount == wager_amount
            &&& m.total_pot == wager_amount
            &&& m.expiry_time == expiry_time
            &&& m.status is WaitingForPlayer
            &&& m.winner is None
            &&& m.created_at == now
            &&& m.result_hash is None
            &&& e == (Escrow { balance: wager_amount, total_in: wager_amount, total_out: 0 })
            &&& match_escrow_wf(m, e)
        },
        r is Ok && funding is Direct ==> *final(vault) == *old(vault),
        r is Ok && funding is Session ==> ((*old(vault)) matches Some(v) && *final(vault) == Some(
            vault_step(v, VaultOp::Debit { amount: wager_amount, now }),
        )),
        (*final(vault)) matches Some(v) ==> v.wf(),
{
    if config.is_paused {
        return Err(PV3Error::PlatformPaused);
    }
    if wager_amount < MIN_WAGER {
        return Err(PV3Error::WagerTooLow);
    }
    if wager_amount > MAX_WAGER {
        return Err(PV3Error::WagerTooHigh);
    }
    if expiry_time <= now {
        return Err(PV3Error::InvalidExpiryTime);
    }
    match funding {
        FundingSource::Session => {
            match vault {
                Some(v) => {
                    match use_session_funds(v, wager_amount, now) {
                        Ok(()) => {},
                        Err(e) => {
                            return Err(e);
                        },
                    }
                },
                None => {
                    // A session-funded call carries a vault by the
                    // precondition, so this arm is provably dead.
                    proof {
                        assert(false);
                    }
                    return Err(PV3Error::InsufficientSessionBalance);
                },
            }
        },
        FundingSource::Direct => {},
    }
    let match_account = Match {
        creator,
        joiner: None,
        game_id,
        wager_amount,
        total_pot: wager_amount,
        expiry_time,
        status: MatchStatus::WaitingForPlayer,
        winner: None,
        created_at: now,
        result_hash: None,
    };
    let escrow = Escrow { balance: wager_amount, total_in: wager_amount, total_out: 0 };
    Ok((match_account, escrow))
}

/// The first reason to reject a join, if any: the pause flag, the match
/// must still be waiting, the joiner must not be the creator, the match
/// must not have expired, then cover in the session vault when that is
/// the funding source.
pub open spec fn spec_join_match_error(
    config: PlatformConfig,
    m: Match,
    vault: Option<SessionVault>,
    joiner: AccountId,
    now: i64,
    funding: FundingSource,
) -> Option<PV3Error> {
    if config.is_paused {
        Some(PV3Error::PlatformPaused)
    } else if !(m.status is WaitingForPlayer) {
        Some(PV3Error::MatchNotAvailable)
    } else if m.creator == joiner {
        Some(PV3Error::CannotJoinOwnMatch)
    } else if now >= m.expiry_time {
        Some(PV3Error::MatchExpired)
    } else if funding is Session && (vault matches Some(v) && v.balance < m.wager_amount) {
        Some(PV3Error::InsufficientSessionBalance)
    } else {
        None
    }
}

/// Join a waiting match: validate, take the joiner's equal stake into the
/// escrow, record the joiner, double the pot and move to `InProgress`.
/// On any error nothing is changed.
pub fn join_match(
    config: &PlatformConfig,
    match_account: &mut Match,
    escrow: &mut Escrow,
    vault: &mut Option<SessionVault>,
    joiner: AccountId,
    now: i64,
    funding: FundingSource,
) -> (r: Result<(), PV3Error>)
    requires
        match_escrow_wf(*old(match_account), *old(escrow)),
        (*old(vault)) matches Some(v) ==> v.wf(),
        funding is Session ==> (*old(vault)) is Some,
    ensures
        spec_join_match_error(*config, *old(match_account), *old(vault), joiner, now, funding)
            matches Some(er) ==> r matches Err(e) && e == er && *final(match_account) == *old(
            match_account,
        ) && *final(escrow) == *old(escrow) && *final(vault) == *old(vault),
        spec_join_match_error(*config, *old(match_account), *old(vault), joiner, now, funding)
            is None <==> r is Ok,
        r is Ok ==> {
            &&& final(match_account).joiner == Some(joiner)
            &&& final(match_account).status is InProgress
            &&& final(match_account).total_pot == 2 * old(match_account).wager_amount
            &&& final(match_account).creator == old(match_account).creator
            &&& final(match_account).game_id@ == old(match_account).game_id@
            &&& final(match_account).wager_amount == old(match_account).wager_amount
            &&& final(match_account).expiry_time == old(match_account).expiry_time
            &&& final(match_account).created_at == old(match_account).created_at
            &&& final(match_account).winner is None
            &&& final(match_account).result_hash is None
            &&& final(escrow).total_in == old(escrow).total_in + old(match_account).wager_amount
            &&& final(escrow).balance == old(escrow).balance + old(match_account).wager_amount
            &&& final(escrow).total_out == old(escrow).total_out
        },
        r is Ok && funding is Direct ==> *final(vault) == *old(vault),
        r is Ok && funding is Session ==> ((*old(vault)) matches Some(v) && *final(vault) == Some(
            vault_step(v, VaultOp::Debit { amount: old(match_account).wager_amount, now }),
        )),
        (*final(vault)) matches Some(v) ==> v.wf(),
        match_escrow_wf(*final(match_account), *final(escrow)),
        status_step(old(match_account).status, final(match_account).status),
{
    if config.is_paused {
        return Err(PV3Error::PlatformPaused);
    }
    if !matches!(match_account.status, MatchStatus::WaitingForPlayer) {
        return Err(PV3Error::MatchNotAvailable);
    }
    if match_account.creator == joiner {
        return Err(PV3Error::CannotJoinOwnMatch);
    }
    if now >= match_account.expiry_time {
        return Err(PV3Error::MatchExpired);
    }
    let wager_amount = match_account.wager_amount;
    match funding {
        FundingSource::Session => {
            match vault {
                Some(v) => {
                    match use_session_funds(v, wager_amount, now) {
                        Ok(()) => {},
                        Err(e) => {
                            return Err(e);
                        },
                    }
                },
                None => {
                    // A session-funded call carries a vault by the
                    // precondition, so this arm is provably dead.
                    proof {
                        assert(false);
                    }
                    return Err(PV3Error::InsufficientSessionBalance);
                },
            }
        },
        FundingSource::Direct => {},
    }
    escrow.balance = escrow.balance + wager_amount;
    escrow.total_in = escrow.total_in + wager_amount;
    match_account.joiner = Some(joiner);
    match_account.total_pot = wager_amount * 2;
    match_account.status = MatchStatus::InProgress;
    Ok(())
}

/// The first reason to reject a result submission, if any: the match must
/// be in progress, the winner must be a participant, the co-submitted
/// instruction must target the verification program, its data must attest
/// exactly this match's result message under the configured verifier key,
/// and the escrow must cover the pot.
pub open spec fn spec_submit_result_error(
    config: PlatformConfig,
    m: Match,
    e: Escrow,
    match_id: AccountId,
    winner_pubkey: AccountId,
    result_hash: Seq<u8>,
    signature: Seq<u8>,
    instruction: Instruction,
) -> Option<PV3Error> {
    if !(m.status is InProgress) {
        Some(PV3Error::MatchNotInProgress)
    } else if winner_pubkey != m.creator && Some(winner_pubkey) != m.joiner {
        Some(PV3Error::InvalidWinner)
    } else if instruction.program_id != ED25519_PROGRAM_ID {
        Some(PV3Error::InvalidSignatureInstruction)
    } else {
        let attestation = spec_verification_error(
            signature,
            spec_result_message(match_id, winner_pubkey, result_hash),
            config.verifier_pubkey,
            instruction.data@,
        );
        if attestation is Some {
            attestation
        } else if e.balance < m.total_pot {
            Some(PV3Error::InsufficientEscrowBalance)
        } else {
            None
        }
    }
}

/// Settle a running match from an oracle-attested result: check the
/// status, the winner, and the attestation binding; split the pot by the
/// fee schedule current at settlement time; drain the escrow to the
/// winner, treasury and referral pool; mark the match completed; and bump
/// the platform counters.  All checks precede the first mutation, so on
/// any error nothing is changed.
pub fn submit_result(
    config: &mut PlatformConfig,
    match_account: &mut Match,
    escrow: &mut Escrow,
    match_id: AccountId,
    winner_pubkey: AccountId,
    result_hash: Vec<u8>,
    ed25519_signature: Vec<u8>,
    instruction: &Instruction,
) -> (r: Result<FeeSplit, PV3Error>)
    requires
        old(config).fees_wf(),
        match_escrow_wf(*old(match_account), *old(escrow)),
        old(config).total_matches < u64::MAX,
        old(config).total_volume + old(match_account).total_pot <= u64::MAX,
    ensures
        spec_submit_result_error(
            *old(config),
            *old(match_account),
            *old(escrow),
            match_id,
            winner_pubkey,
            result_hash@,
            ed25519_signature@,
            *instruction,
        ) matches Some(er) ==> r matches Err(e) && e == er && *final(config) == *old(config)
            && *final(match_account) == *old(match_account) && *final(escrow) == *old(escrow),
        spec_submit_result_error(
            *old(config),
            *old(match_account),
            *old(escrow),
            match_id,
            winner_pubkey,
            result_hash@,
            ed25519_signature@,
            *instruction,
        ) is None <==> r is Ok,
        r matches Ok(split) ==> {
            &&& split.platform_fee == spec_fee(
                old(match_account).total_pot,
                old(config).platform_fee_bps,
            )
            &&& split.treasury_fee == spec_fee(
                old(match_account).total_pot,
                old(config).treasury_fee_bps,
            )
            &&& split.referral_fee == spec_fee(
                old(match_account).total_pot,
                old(config).referral_fee_bps,
            )
            &&& split.winner_amount == old(match_account).total_pot - split.platform_fee
            &&& final(match_account).status is Completed
            &&& final(match_account).winner == Some(winner_pubkey)
            &&& (final(match_account).result_hash matches Some(h) && h@ == result_hash@)
            &&& final(match_account).creator == old(match_account).creator
            &&& final(match_account).joiner == old(match_account).joiner
            &&& final(match_account).game_id@ == old(match_account).game_id@
            &&& final(match_account).wager_amount == old(match_account).wager_amount
            &&& final(match_account).total_pot == old(match_account).total_pot
            &&& final(match_account).expiry_time == old(match_account).expiry_time
            &&& final(match_account).created_at == old(match_account).created_at
            &&& final(escrow).total_in == old(escrow).total_in
            &&& final(escrow).total_out == old(escrow).total_out + split.winner_amount
                + split.treasury_fee + split.referral_fee
            &&& final(escrow).balance == old(escrow).balance - (split.winner_amount
                + split.treasury_fee + split.referral_fee)
            &&& final(config).total_matches == old(config).total_matches + 1
            &&& final(config).total_volume == old(config).total_volume + old(
                match_account,
            ).total_pot
            &&& final(config).treasury == old(config).treasury
            &&& final(config).referral_pool == old(config).referral_pool
            &&& final(config).verifier_pubkey == old(config).verifier_pubkey
            &&& final(config).platform_fee_bps == old(config).platform_fee_bps
            &&& final(config).treasury_fee_bps == old(config).treasury_fee_bps
            &&& final(config).referral_fee_bps == old(config).referral_fee_bps
            &&& final(config).is_paused == old(config).is_paused
            &&& final(config).admin_signers == old(config).admin_signers
        },
        match_escrow_wf(*final(match_account), *final(escrow)),
        status_step(old(match_account).status, final(match_account).status),
        final(config).fees_wf(),
{
    if !matches!(match_account.status, MatchStatus::InProgress) {
        return Err(PV3Error::MatchNotInProgress);
    }
    let joined = match match_account.joiner {
        Some(j) => j == winner_pubkey,
        None => false,
    };
    if winner_pubkey != match_account.creator && !joined {
        return Err(PV3Error::InvalidWinner);
    }
    if instruction.program_id != ED25519_PROGRAM_ID {
        return Err(PV3Error::InvalidSignatureInstruction);
    }
    let expected_message = create_result_message(match_id, winner_pubkey, &result_hash);
    match verify_ed25519_signature(
        &ed25519_signature,
        &expected_message,
        config.verifier_pubkey,
        &instruction.data,
    ) {
        Ok(()) => {},
        Err(e) => {
            return Err(e);
        },
    }
    if escrow.balance < match_account.total_pot {
        return Err(PV3Error::InsufficientEscrowBalance);
    }
    let total_pot = match_account.total_pot;
    proof {
        assert(total_pot <= 2 * MAX_WAGER);
        let bps = old(config).platform_fee_bps;
        assert(total_pot * bps <= u64::MAX) by (nonlinear_arith)
            requires
                total_pot <= 20_000_000_000,
                bps <= 1000,
        ;
    }
    let split = split_pot(
        total_pot,
        config.platform_fee_bps,
        config.treasury_fee_bps,
        config.referral_fee_bps,
    );
    let paid = split.winner_amount + split.treasury_fee + split.referral_fee;
    escrow.balance = escrow.balance - paid;
    escrow.total_out = escrow.total_out + paid;
    match_account.winner = Some(winner_pubkey);
    match_account.result_hash = Some(result_hash);
    match_account.status = MatchStatus::Completed;
    config.total_matches = config.total_matches + 1;
    config.total_volume = config.total_volume + total_pot;
    Ok(split)
}

/// What a refund pays back out of the escrow: the creator's stake, and an
/// equal stake to the joiner if someone joined.
#[derive(Clone, Copy, Debug, PartialEq, Eq, Structural)]
pub struct Refund {
    /// Returned to the creator.
    pub creator_amount: u64,
    /// Returned to the joiner; zero when nobody joined.
    pub joiner_amount: u64,
}

/// The reason to reject a refund, if any: a settled or already refunded
/// match is never refunded again, and otherwise the match must have
/// expired or been cancelled.
pub open spec fn spec_refund_error(m: Match, now: i64) -> Option<PV3Error> {
    if m.status is Completed || m.status is Refunded {
        Some(PV3Error::RefundNotAllowed)
    } else if !(now > m.expiry_time || m.status is Cancelled) {
        Some(PV3Error::RefundNotAllowed)
    } else {
        None
    }
}

/// Return the stakes of an expired or cancelled match: the creator's
/// wager, and the joiner's if someone joined, draining the escrow to
/// zero; the match becomes `Refunded`.  This is the only path that moves
/// escrow funds without oracle involvement, and it never fires on a
/// settled or already refunded match.  On any error nothing is changed.
pub fn refund_match(match_account: &mut Match, escrow: &mut Escrow, now: i64) -> (r: Result<
    Refund,
    PV3Error,
>)
    requires
        match_escrow_wf(*old(match_account), *old(escrow)),
    ensures
        spec_refund_error(*old(match_account), now) matches Some(er) ==> r matches Err(e) && e
            == er && *final(match_account) == *old(match_account) && *final(escrow) == *old(escrow),
        spec_refund_error(*old(match_account), now) is None <==> r is Ok,
        r matches Ok(refund) ==> {
            &&& refund.creator_amount == old(match_account).wager_amount
            &&& (old(match_account).joiner is Some ==> refund.joiner_amount == old(
                match_account,
            ).wager_amount)
            &&& (old(match_account).joiner is None ==> refund.joiner_amount == 0)
            &&& final(match_account).status is Refunded
            &&& final(match_account).creator == old(match_account).creator
            &&& final(match_account).joiner == old(match_account).joiner
            &&& final(match_account).game_id@ == old(match_account).game_id@
            &&& final(match_account).wager_amount == old(match_account).wager_amount
            &&& final(match_account).total_pot == old(match_account).total_pot
            &&& final(match_account).expiry_time == old(match_account).expiry_time
            &&& final(match_account).created_at == old(match_account).created_at
            &&& final(match_account).winner is None
            &&& final(match_account).result_hash is None
            &&& final(escrow).total_in == old(escrow).total_in
            &&& final(escrow).total_out == old(escrow).total_out + refund.creator_amount
                + refund.joiner_amount
            &&& final(escrow).balance == 0
        },
        match_escrow_wf(*final(match_account), *final(escrow)),
        status_step(old(match_account).status, final(match_account).status),
{
    if matches!(match_account.status, MatchStatus::Completed)
        || matches!(match_account.status, MatchStatus::Refunded) {
        return Err(PV3Error::RefundNotAllowed);
    }
    let cancelled = matches!(match_account.status, MatchStatus::Cancelled);
    if !(now > match_account.expiry_time || cancelled) {
        return Err(PV3Error::RefundNotAllowed);
    }
    let wager_amount = match_account.wager_amount;
    let joiner_amount = match match_account.joiner {
        Some(_) => wager_amount,
        None => 0,
    };
    let paid = wager_amount + joiner_amount;
    escrow.balance = escrow.balance - paid;
    escrow.total_out = escrow.total_out + paid;
    match_account.status = MatchStatus::Refunded;
    Ok(Refund { creator_amount: wager_amount, joiner_amount })
}

} // verus!
