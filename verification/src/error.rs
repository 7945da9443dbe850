//! The ways an invocation can fail.

use vstd::prelude::*;

verus! {

/// Why an invocation was refused. Every failure ends the invocation: a
/// function that returns one of these has produced no effect.
#[derive(Clone, Copy, Debug, PartialEq, Eq, Structural)]
pub enum ProgramError {
    /// A program identifier is not the one the operation is bound to.
    IncorrectProgramId,
    /// The account list does not have the shape the instruction declares.
    NotEnoughAccounts,
    /// An account that must authorise the operation did not sign.
    MissingSignature,
    /// An account is not owned by the expected program.
    WrongProgramOwner,
    /// An account's address is not the one derived from its seeds.
    AddressMismatch,
    /// Storage that must be unused already holds a balance or bytes.
    AlreadyInitialized,
    /// Storage that must be in use holds no balance.
    Uninitialized,
    /// A byte buffer does not have the fixed width of its layout.
    MalformedRecord,
    /// An instruction's leading tag names no instruction.
    UnknownInstruction,
    /// An encoding does not fit the fixed-capacity buffer given for it.
    EncodingOverflow,
    /// The signer is not the authority stored in the record.
    IllegalAuthority,
    /// Incrementing the counter would pass the largest 64-bit value.
    CounterOverflow,
    /// A balance would pass the largest 64-bit value.
    ArithmeticOverflow,
    /// A program-specific failure, by its code.
    Custom(u32),
}

} // verus!
