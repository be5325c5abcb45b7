//! Error kinds reported by the lottery state machine.
//!
//! Every precondition failure aborts the whole invocation with one of these
//! kinds; nothing is written to persistent state on failure.

use vstd::prelude::*;

verus! {

/// One kind per distinct failure condition of the three operations.
#[derive(Clone, Copy, Debug, PartialEq, Eq, Structural)]
pub enum LotteryError {
    /// The instruction buffer is empty or its tag is unknown.
    InvalidInstruction,
    /// An operation referenced more accounts than the caller supplied.
    NotEnoughAccountKeys,
    /// A required signer did not sign the transaction.
    MissingRequiredSignature,
    /// The storage region is not owned by this program.
    IncorrectProgramId,
    /// The storage region is not funded above the persistence threshold.
    NotRentExempt,
    /// Initialize was attempted on a record that is already initialized.
    AccountAlreadyInitialized,
    /// The region bytes violate a decode constraint (wrong size, bad flag).
    InvalidAccountData,
    /// Enter or Draw was attempted on a record that is not yet initialized.
    UninitializedAccount,
    /// The entering identity's balance does not cover the entry fee.
    InsufficientFunds,
    /// Enter was attempted on a record whose three slots are already filled.
    CapacityExceeded,
    /// Draw was attempted before all three entrant slots were filled.
    EntrantsIncomplete,
    /// Draw was attempted by an identity other than the bound authority.
    AuthorityMismatch,
}

} // verus!
