use vstd::prelude::*;

verus! {

/// The reasons an instruction can be refused. Exactly one of them is
/// returned for a failing invocation, and nothing is written in that case.
#[derive(Clone, Copy, Debug, PartialEq, Eq, Structural)]
pub enum ProgramError {
    /// A domain argument is out of range, or checked arithmetic overflowed.
    InvalidArgument,
    /// The instruction payload is empty, too short, or carries an unknown tag.
    InvalidInstructionData,
    /// A record has the wrong width, or the signer is not the identity the
    /// record names as its authority.
    InvalidAccountData,
    /// The requested amount exceeds the balance it is drawn from.
    InsufficientFunds,
    /// A slot that the instruction writes is owned by another program.
    IncorrectProgramId,
    /// The authority, owner or creator did not sign.
    MissingRequiredSignature,
    /// The record to initialize is already initialized.
    AccountAlreadyInitialized,
    /// The record to operate on has not been initialized.
    UninitializedAccount,
    /// Fewer account slots were supplied than the instruction names.
    NotEnoughAccountKeys,
    /// A registry record could not be decoded from, or does not fit into, its slot.
    BorshIoError,
    /// The slot's funding is below the rent-exemption threshold for its size.
    AccountNotRentExempt,
}

} // verus!
