use vstd::prelude::*;

use crate::account::AccountId;
use crate::errors::PV3Error;

verus! {

/// A per-user prepaid balance.  Deposits and withdrawals move tokens
/// between the owner and the vault on the host ledger; match debits move
/// vault funds into a match escrow.  All mutation goes through the
/// operations below, which timestamp the vault's last activity.
#[derive(Clone, Copy, Debug, PartialEq, Eq, Structural)]
pub struct SessionVault {
    /// The user the vault belongs to.
    pub owner: AccountId,
    /// Funds currently held.
    pub balance: u64,
    /// Sum of all deposits ever made.
    pub total_deposited: u64,
    /// Sum of all withdrawals and recoveries ever made.
    pub total_withdrawn: u64,
    /// Number of match debits ever taken.
    pub matches_played: u64,
    /// When the vault was created.
    pub created_at: i64,
    /// When the vault was last deposited to, withdrawn from, debited, or
    /// recovered.
    pub last_activity: i64,
}

impl SessionVault {
    /// The total amount ever debited for matches, as the ledger equation
    /// leaves it: everything deposited that is neither still held nor
    /// withdrawn.
    pub open spec fn spec_debited(self) -> int {
        self.total_deposited - self.total_withdrawn - self.balance
    }

    /// Ledger consistency: every match debit moved at least one unit, so
    /// the debit counter never exceeds the debited amount.  This bounds
    /// `balance + total_withdrawn` by `total_deposited` and keeps every
    /// counter update below free of overflow.
    pub open spec fn wf(self) -> bool {
        self.matches_played <= self.spec_debited()
    }
}

/// One requested vault operation, for reasoning about operation sequences.
pub enum VaultOp {
    /// Move `amount` from the owner into the vault at time `now`.
    Deposit { amount: u64, now: i64 },
    /// Move `amount` from the vault back to the owner at time `now`.
    Withdraw { amount: u64, now: i64 },
    /// Debit `amount` towards a match escrow at time `now`.
    Debit { amount: u64, now: i64 },
}

/// Whether a vault in state `v` accepts `op`: amounts must be positive,
/// withdrawals and debits must be covered by the balance, and a deposit
/// must keep the lifetime deposit tally within the machine range.
pub open spec fn vault_op_allowed(v: SessionVault, op: VaultOp) -> bool {
    match op {
        VaultOp::Deposit { amount, now } => amount > 0 && v.total_deposited + amount <= u64::MAX,
        VaultOp::Withdraw { amount, now } => amount > 0 && amount <= v.balance,
        VaultOp::Debit { amount, now } => amount > 0 && amount <= v.balance,
    }
}

/// The state after `op`: updated when the vault accepts it, unchanged when
/// it rejects it.
pub open spec fn vault_step(v: SessionVault, op: VaultOp) -> SessionVault {
    if !vault_op_allowed(v, op) {
        v
    } else {
        match op {
            VaultOp::Deposit { amount, now } => SessionVault {
                balance: (v.balance + amount) as u64,
                total_deposited: (v.total_deposited + amount) as u64,
                last_activity: now,
                ..v
            },
            VaultOp::Withdraw { amount, now } => SessionVault {
                balance: (v.balance - amount) as u64,
                total_withdrawn: (v.total_withdrawn + amount) as u64,
                last_activity: now,
                ..v
            },
            VaultOp::Debit { amount, now } => SessionVault {
                balance: (v.balance - amount) as u64,
                matches_played: (v.matches_played + 1) as u64,
                last_activity: now,
                ..v
            },
        }
    }
}

/// The state after a whole sequence of requested operations.
pub open spec fn apply_vault_ops(v: SessionVault, ops: Seq<VaultOp>) -> SessionVault
    decreases ops.len(),
{
    if ops.len() == 0 {
        v
    } else {
        apply_vault_ops(vault_step(v, ops[0]), ops.skip(1))
    }
}

/// A single accepted or rejected operation preserves the vault's ledger
/// consistency.
pub proof fn lemma_vault_step_wf(v: SessionVault, op: VaultOp)
    requires
        v.wf(),
    ensures
        vault_step(v, op).wf(),
{
}

/// Vault non-negativity: across any sequence of deposit, withdraw and
/// debit requests, the balance never drops below zero and the ledger
/// equation keeps holding; a request the balance does not cover is
/// rejected and leaves the vault exactly as it was.
pub proof fn lemma_vault_sequence_safe(v: SessionVault, ops: Seq<VaultOp>)
    requires
        v.wf(),
    ensures
        apply_vault_ops(v, ops).wf(),
        apply_vault_ops(v, ops).balance >= 0,
        forall|op: VaultOp|
            !vault_op_allowed(apply_vault_ops(v, ops), op)
                ==> #[trigger] vault_step(apply_vault_ops(v, ops), op) == apply_vault_ops(v, ops),
    decreases ops.len(),
{
    if ops.len() > 0 {
        lemma_vault_step_wf(v, ops[0]);
        lemma_vault_sequence_safe(vault_step(v, ops[0]), ops.skip(1));
    }
}

/// Open a fresh vault for `user`: all tallies at zero, timestamped `now`.
/// Whether the user already has a vault is decided by the host's account
/// directory, which refuses a second slot for the same user.
pub fn create_session(user: AccountId, now: i64) -> (vault: SessionVault)
    ensures
        vault == (SessionVault {
            owner: user,
            balance: 0,
            total_deposited: 0,
            total_withdrawn: 0,
            matches_played: 0,
            created_at: now,
            last_activity: now,
        }),
        vault.wf(),
{
    SessionVault {
        owner: user,
        balance: 0,
        total_deposited: 0,
        total_withdrawn: 0,
        matches_played: 0,
        created_at: now,
        last_activity: now,
    }
}

/// Credit a deposit of `amount` (already transferred in by the host
/// ledger) at time `now`.  Rejects a zero amount with no mutation.
pub fn deposit_to_session(vault: &mut SessionVault, amount: u64, now: i64) -> (r: Result<(), PV3Error>)
    requires
        old(vault).wf(),
        old(vault).total_deposited + amount <= u64::MAX,
    ensures
        final(vault).wf(),
        *final(vault) == vault_step(*old(vault), VaultOp::Deposit { amount, now }),
        r is Ok <==> amount > 0,
        r is Err ==> r == Err::<(), PV3Error>(PV3Error::InvalidAmount) && *final(vault) == *old(vault),
{
    if amount == 0 {
        return Err(PV3Error::InvalidAmount);
    }
    vault.balance = vault.balance + amount;
    vault.total_deposited = vault.total_deposited + amount;
    vault.last_activity = now;
    Ok(())
}

/// Pay `amount` back out to the owner at time `now`; the host ledger
/// performs the transfer after this succeeds.  Rejects a zero amount or an
/// uncovered amount with no mutation.
pub fn withdraw_from_session(vault: &mut SessionVault, amount: u64, now: i64) -> (r: Result<(), PV3Error>)
    requires
        old(vault).wf(),
    ensures
        final(vault).wf(),
        *final(vault) == vault_step(*old(vault), VaultOp::Withdraw { amount, now }),
        r is Ok <==> amount > 0 && amount <= old(vault).balance,
        amount == 0 ==> r == Err::<(), PV3Error>(PV3Error::InvalidAmount),
        amount > 0 && old(vault).balance < amount ==> r == Err::<(), PV3Error>(
            PV3Error::InsufficientSessionBalance,
        ),
        r is Err ==> *final(vault) == *old(vault),
{
    if amount == 0 {
        return Err(PV3Error::InvalidAmount);
    }
    if vault.balance < amount {
        return Err(PV3Error::InsufficientSessionBalance);
    }
    vault.balance = vault.balance - amount;
    vault.total_withdrawn = vault.total_withdrawn + amount;
    vault.last_activity = now;
    Ok(())
}

/// Debit `amount` towards a match escrow at time `now` and count the
/// match.  The matching credit into the escrow is recorded by the caller
/// as part of the same logical movement.  Rejects a zero amount or an
/// uncovered amount with no mutation.
pub fn use_session_funds(vault: &mut SessionVault, amount: u64, now: i64) -> (r: Result<(), PV3Error>)
    requires
        old(vault).wf(),
    ensures
        final(vault).wf(),
        *final(vault) == vault_step(*old(vault), VaultOp::Debit { amount, now }),
        r is Ok <==> amount > 0 && amount <= old(vault).balance,
        amount == 0 ==> r == Err::<(), PV3Error>(PV3Error::InvalidAmount),
        amount > 0 && old(vault).balance < amount ==> r == Err::<(), PV3Error>(
            PV3Error::InsufficientSessionBalance,
        ),
        r is Err ==> *final(vault) == *old(vault),
        r is Ok ==> final(vault).spec_debited() == old(vault).spec_debited() + amount,
{
    if amount == 0 {
        return Err(PV3Error::InvalidAmount);
    }
    if vault.balance < amount {
        return Err(PV3Error::InsufficientSessionBalance);
    }
    vault.balance = vault.balance - amount;
    vault.matches_played = vault.matches_played + 1;
    vault.last_activity = now;
    Ok(())
}

} // verus!
