//! Failure taxonomy of the media access service.

use vstd::prelude::*;

verus! {

/// Domain-specific failures of the media access service.
#[derive(Clone, Copy, Debug, PartialEq, Eq, Structural)]
pub enum LVMError {
    /// Malformed or unrecognized command buffer.
    InvalidInstruction,
    /// The target storage account fails the minimum-balance persistence
    /// requirement.
    NotRentExempt,
    /// The buyer lacks funds to cover the computed total cost.
    InsufficientTokenBalance,
    /// The reported consumption would decrease the recorded time spent.
    AccessTimeCannotReduce,
    /// Balance arithmetic during reclamation overflows.
    AmountOverflow,
}

/// Every failure the processor can surface: the host's standard categories
/// (missing signature, wrong owning program, malformed account data) together
/// with the domain errors of [`LVMError`].
#[derive(Clone, Copy, Debug, PartialEq, Eq, Structural)]
pub enum ProcessError {
    /// A required signer did not sign the operation.
    MissingRequiredSignature,
    /// An account is not owned by the expected program.
    IncorrectProgramId,
    /// Fewer accounts were supplied than the operation consumes.
    NotEnoughAccountKeys,
    /// Account data has the wrong length or cannot be parsed.
    InvalidAccountData,
    /// A token account holds no initialized token state.
    UninitializedAccount,
    /// A domain failure.
    Lvm(LVMError),
}

impl From<LVMError> for ProcessError {
    fn from(e: LVMError) -> (r: ProcessError) {
        ProcessError::Lvm(e)
    }
}

impl vstd::std_specs::convert::FromSpecImpl<LVMError> for ProcessError {
    open spec fn obeys_from_spec() -> bool {
        true
    }

    open spec fn from_spec(e: LVMError) -> ProcessError {
        ProcessError::Lvm(e)
    }
}

} // verus!
