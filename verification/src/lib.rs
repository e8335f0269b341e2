//! Match settlement and escrow engine for peer-to-peer wagers.
//!
//! Two parties stake equal amounts into a per-match escrow; a configured
//! oracle attests to the winner, and settlement splits the pot between
//! winner, platform treasury and referral pool in basis points.  A session
//! vault lets a user pre-fund repeated wagers, and a 2-of-3 admin multisig
//! can pause the platform, retune fees and reclaim abandoned vaults.
//!
//! The engine is pure state-transition logic: the host ledger performs the
//! actual token transfers, hands the engine the current time, and stores the
//! records.  Every operation either commits fully or fails with an error and
//! no mutation.

pub mod account;
pub mod admin;
pub mod errors;
pub mod fees;
pub mod lifecycle;
pub mod oracle;
pub mod platform;
pub mod session;
