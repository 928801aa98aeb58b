use vstd::prelude::*;

verus! {

/// The failure modes of the account-data layer and of the threshold-update
/// transition. Every check in the library fails fast with exactly one of
/// these; no state is mutated on any error path.
#[derive(Clone, Copy, Debug, PartialEq, Eq, Structural)]
pub enum MultisigError {
    /// Fewer accounts were supplied than the instruction needs.
    MissingAccounts,
    /// The supplied config account's address does not equal the derived one.
    AddressMismatch,
    /// The instruction payload has the wrong length.
    InvalidInstructionData,
    /// The record is not owned by this program.
    IllegalOwner,
    /// The record's length is wrong, or its contents are corrupt.
    InvalidAccountData,
    /// The record's initialization marker says the slot is not populated.
    Uninitialized,
    /// The new value equals the old value; a no-op update is caller error.
    NoOpRejected,
    /// The new threshold is zero or exceeds the number of approving members.
    ThresholdOutOfRange,
}

} // verus!
