use vstd::prelude::*;

verus! {

/// Failure conditions surfaced by the engine's operations.  Every operation
/// that fails reports one of these and leaves all state untouched.
#[derive(Clone, Copy, Debug, PartialEq, Eq, Structural)]
pub enum PV3Error {
    /// The platform pause flag is set (or, for an unpause, already clear).
    PlatformPaused,
    /// Wager below the minimum stake.
    WagerTooLow,
    /// Wager above the maximum stake.
    WagerTooHigh,
    /// A match must expire strictly in the future.
    InvalidExpiryTime,
    /// The match is not waiting for a second player.
    MatchNotAvailable,
    /// A creator cannot join their own match.
    CannotJoinOwnMatch,
    /// The match expired before it was joined.
    MatchExpired,
    /// Results can only be submitted for a match in progress.
    MatchNotInProgress,
    /// The claimed winner is not one of the two participants.
    InvalidWinner,
    /// The match is not eligible for a refund.
    RefundNotAllowed,
    /// A zero amount, an invalid fee schedule, or a recovery precondition
    /// that does not hold.
    InvalidAmount,
    /// The session vault balance does not cover the requested amount.
    InsufficientSessionBalance,
    /// The escrow balance does not cover the pot to be distributed.
    InsufficientEscrowBalance,
    /// The co-submitted instruction does not target the signature
    /// verification program.
    InvalidSignatureInstruction,
    /// The verification instruction is malformed or signs a different
    /// message.
    InvalidSignatureData,
    /// The verification instruction carries other than one signature.
    InvalidSignatureCount,
    /// The signature in the verification instruction differs from the
    /// claimed one.
    SignatureMismatch,
    /// The signing key in the verification instruction is not the
    /// configured verifier identity.
    PublicKeyMismatch,
    /// A governance signer is not a member of the admin set.
    UnauthorizedAdmin,
    /// The two governance signers are not distinct.
    InsufficientAdminSignatures,
}

} // verus!
