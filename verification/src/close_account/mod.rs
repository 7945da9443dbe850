//! The close-account program: a record that is created and closed again.

use vstd::prelude::*;
use crate::account::{states, Account, AccountState};
use crate::address::{program_address, Address};
use crate::bytes::same_bytes;
use crate::close_account::accounts::Meme;
use crate::close_account::instructions::close_meme::close_meme_plan;
use crate::close_account::instructions::create_meme::create_meme_plan;
use crate::close_account::instructions::{close_meme, create_meme};
use crate::codec::Codec;
use crate::effect::{as_close, as_create, outcome, Effect, EffectView};
use crate::error::ProgramError;

pub mod accounts;
pub mod instructions;

verus! {

/// The identifier that the close-account program is deployed under.
pub const ID: [u8; 32] = [
    19, 23, 121, 111, 251, 59, 32, 240, 84, 92, 180, 191, 100, 34, 229, 79, 252, 73, 7, 76, 6, 211,
    23, 217, 36, 73, 49, 212, 142, 137, 88, 54,
];

/// Whether `id` is the identifier of the close-account program.
pub fn check_id(id: &[u8; 32]) -> (r: bool)
    ensures
        r == (id@ == ID@),
{
    same_bytes(id.as_slice(), ID.as_slice())
}

/// The close-account program's own address.
pub open spec fn program() -> Address {
    Address { bytes: ID }
}

/// The identifier of the close-account program, as an address.
pub fn id() -> (a: Address)
    ensures
        a == program(),
        a@ == ID@,
{
    Address::new_from_array(ID)
}

/// An instruction of the close-account program: a one-byte tag and nothing
/// more.
#[derive(Clone, Copy, Debug, PartialEq, Eq, Structural)]
pub enum CloseAccountInstruction {
    /// Creates the record. Accounts: the payer, who signs; the record, which
    /// is changed; the system program.
    CreateMeme,
    /// Closes the record. Accounts: the payer, who signs; the record, which
    /// is changed; the system program.
    CloseMeme,
}

impl Codec for CloseAccountInstruction {
    open spec fn encoding(&self) -> Seq<u8> {
        match self {
            CloseAccountInstruction::CreateMeme => seq![0u8],
            CloseAccountInstruction::CloseMeme => seq![1u8],
        }
    }

    open spec fn decoding(bytes: Seq<u8>) -> Result<Self, ProgramError> {
        if bytes.len() == 0 {
            Err(ProgramError::MalformedRecord)
        } else if bytes[0] > 1 {
            Err(ProgramError::UnknownInstruction)
        } else if bytes.len() != 1 {
            Err(ProgramError::MalformedRecord)
        } else if bytes[0] == 0 {
            Ok(CloseAccountInstruction::CreateMeme)
        } else {
            Ok(CloseAccountInstruction::CloseMeme)
        }
    }

    fn to_vec(&self) -> (v: Vec<u8>) {
        let v = match self {
            CloseAccountInstruction::CreateMeme => vec![0u8],
            CloseAccountInstruction::CloseMeme => vec![1u8],
        };
        assert(v@ =~= self.encoding());
        v
    }

    fn try_from_slice(data: &[u8]) -> (r: Result<Self, ProgramError>) {
        if data.len() == 0 {
            return Err(ProgramError::MalformedRecord);
        }
        let tag = data[0];
        if tag > 1 {
            return Err(ProgramError::UnknownInstruction);
        }
        if data.len() != 1 {
            return Err(ProgramError::MalformedRecord);
        }
        if tag == 0 {
            Ok(CloseAccountInstruction::CreateMeme)
        } else {
            Ok(CloseAccountInstruction::CloseMeme)
        }
    }

    proof fn lemma_round_trip(&self) {
    }

    proof fn lemma_canonical(bytes: Seq<u8>) {
        if bytes.len() == 1 {
            assert(seq![bytes[0]] =~= bytes);
        }
    }
}

/// What an invocation of the close-account program comes to: the program
/// identifier is checked first, then the instruction is decoded, and only
/// then does the handler that the instruction names look at the accounts.
pub open spec fn process_outcome(
    program_id: Address,
    accounts: Seq<AccountState>,
    instruction_data: Seq<u8>,
) -> Result<EffectView, ProgramError> {
    if program_id@ != ID@ {
        Err(ProgramError::IncorrectProgramId)
    } else {
        match CloseAccountInstruction::decoding(instruction_data) {
            Err(e) => Err(e),
            Ok(CloseAccountInstruction::CreateMeme) => as_create(
                create_meme_plan(program_id, accounts, program_address(Meme::seeds(), ID@)),
            ),
            Ok(CloseAccountInstruction::CloseMeme) => as_close(close_meme_plan(accounts)),
        }
    }
}

/// Handles one invocation of the close-account program. Nothing is kept from
/// one invocation to the next.
pub fn process(program_id: &Address, accounts: &[Account], instruction_data: &[u8]) -> (r: Result<
    Effect,
    ProgramError,
>)
    ensures
        outcome(r) == process_outcome(*program_id, states(accounts@), instruction_data@),
{
    if !check_id(program_id.as_array()) {
        return Err(ProgramError::IncorrectProgramId);
    }
    let instruction = match CloseAccountInstruction::try_from_slice(instruction_data) {
        Ok(instruction) => instruction,
        Err(e) => {
            return Err(e);
        },
    };
    match instruction {
        CloseAccountInstruction::CreateMeme => match create_meme::process(program_id, accounts) {
            Ok(effect) => Ok(Effect::Create(effect)),
            Err(e) => Err(e),
        },
        CloseAccountInstruction::CloseMeme => match close_meme::process(program_id, accounts) {
            Ok(effect) => Ok(Effect::Close(effect)),
            Err(e) => Err(e),
        },
    }
}

/// An instruction buffer whose tag names no instruction is refused with
/// `UnknownInstruction`, whatever the accounts are.
pub proof fn lemma_unknown_tag_rejected(accounts: Seq<AccountState>, instruction_data: Seq<u8>)
    requires
        instruction_data.len() > 0,
        instruction_data[0] > 1,
    ensures
        CloseAccountInstruction::decoding(instruction_data) == Err::<
            CloseAccountInstruction,
            ProgramError,
        >(ProgramError::UnknownInstruction),
        process_outcome(program(), accounts, instruction_data) == Err::<EffectView, ProgramError>(
            ProgramError::UnknownInstruction,
        ),
{
}

/// An instruction buffer that is empty, or that goes on after its tag, is
/// refused with `MalformedRecord`, whatever the accounts are.
pub proof fn lemma_wrong_width_rejected(accounts: Seq<AccountState>, instruction_data: Seq<u8>)
    requires
        instruction_data.len() == 0 || (instruction_data[0] <= 1 && instruction_data.len() != 1),
    ensures
        CloseAccountInstruction::decoding(instruction_data) == Err::<
            CloseAccountInstruction,
            ProgramError,
        >(ProgramError::MalformedRecord),
        process_outcome(program(), accounts, instruction_data) == Err::<EffectView, ProgramError>(
            ProgramError::MalformedRecord,
        ),
{
}

} // verus!
