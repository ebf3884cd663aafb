//! The closed set of failure causes an operation can surface.

use vstd::prelude::*;

verus! {

/// The domain failures of the distributor, surfaced to a host as a custom
/// numeric code (the position of the variant).
#[derive(Clone, Copy, Debug, PartialEq, Eq, Structural)]
pub enum AirdropProgramError {
    /// The supplied leaf/proof/index does not reconstruct the committed root.
    InvalidProof,
    /// The caller of a rotation is not the stored administrator.
    Unauthorized,
    /// The claim-record slot already holds data: this claimant has claimed.
    AccountAlreadyClaimed,
}

impl AirdropProgramError {
    /// The numeric code a host sees for this failure.
    pub open spec fn spec_code(self) -> u32 {
        match self {
            AirdropProgramError::InvalidProof => 0,
            AirdropProgramError::Unauthorized => 1,
            AirdropProgramError::AccountAlreadyClaimed => 2,
        }
    }

    /// The numeric code a host sees for this failure.
    pub fn code(&self) -> (c: u32)
        ensures
            c == self.spec_code(),
    {
        match self {
            AirdropProgramError::InvalidProof => 0,
            AirdropProgramError::Unauthorized => 1,
            AirdropProgramError::AccountAlreadyClaimed => 2,
        }
    }
}

/// Every way an operation can fail: a domain failure with its own code, or
/// one of the structural failures the host defines.
#[derive(Clone, Copy, Debug, PartialEq, Eq, Structural)]
pub enum AirdropError {
    /// A domain failure, carrying its custom code.
    Program(AirdropProgramError),
    /// Fewer accounts were supplied than the operation needs.
    NotEnoughAccountKeys,
    /// An account is not writable, not in the expected state, or its stored
    /// bytes or address do not match what the operation expects.
    InvalidAccountData,
    /// The instruction payload is malformed or mis-sized.
    InvalidInstructionData,
    /// The campaign address already holds data at initialization time.
    AccountAlreadyInitialized,
    /// The campaign balance cannot cover the claimed amount.
    InsufficientFunds,
}

} // verus!
