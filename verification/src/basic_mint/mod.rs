//! The mint program: a token mint with metadata, and transfers of its tokens.

use vstd::prelude::*;
use crate::account::{states, Account, AccountState};
use crate::address::{program_address, Address};
use crate::basic_mint::instructions::create_mint::{create_mint_plan, mint_seeds};
use crate::basic_mint::instructions::transfer_mint::transfer_mint_plan;
use crate::basic_mint::instructions::{
    create_mint, transfer_mint, CreateMintArgs, TransferMintArgs,
};
use crate::bytes::same_bytes;
use crate::codec::Codec;
use crate::effect::{as_mint, as_transfer, outcome, Effect, EffectView};
use crate::error::ProgramError;
use vstd::slice::slice_subrange;

pub mod instructions;

verus! {

/// The identifier that the mint program is deployed under.
pub const ID: [u8; 32] = [
    107, 152, 138, 190, 152, 8, 14, 136, 190, 77, 94, 219, 16, 203, 105, 89, 129, 12, 233, 6, 227,
    205, 48, 176, 102, 60, 234, 39, 197, 153, 25, 168,
];

/// The identifier of the token program that the mint program works with.
pub const TOKEN_2022_PROGRAM_ID: [u8; 32] = [
    6, 221, 246, 225, 238, 117, 143, 222, 24, 66, 93, 188, 228, 108, 205, 218, 182, 26, 252, 77,
    131, 185, 13, 39, 254, 189, 249, 40, 216, 161, 139, 252,
];

/// The mint program's own address.
pub open spec fn program() -> Address {
    Address { bytes: ID }
}

/// Whether `id` is the identifier of the mint program.
pub fn check_id(id: &[u8; 32]) -> (r: bool)
    ensures
        r == (id@ == ID@),
{
    same_bytes(id.as_slice(), ID.as_slice())
}

/// An instruction of the mint program: a one-byte tag, then the
/// instruction's payload.
#[derive(Clone, Copy, Debug, PartialEq, Eq)]
pub enum BasicMintInstruction {
    /// Create a new mint with token metadata. Accounts: the payer, who
    /// signs; the mint, which is changed; the token program; the system
    /// program.
    CreateMint(CreateMintArgs),
    /// Transfer tokens between token accounts. Accounts: the source, which
    /// is changed; the mint; the destination, which is changed; the
    /// authority of the source; the token program.
    TransferMint(TransferMintArgs),
}

impl Codec for BasicMintInstruction {
    open spec fn encoding(&self) -> Seq<u8> {
        match self {
            BasicMintInstruction::CreateMint(args) => seq![0u8] + args.encoding(),
            BasicMintInstruction::TransferMint(args) => seq![1u8] + args.encoding(),
        }
    }

    open spec fn decoding(bytes: Seq<u8>) -> Result<Self, ProgramError> {
        if bytes.len() == 0 {
            Err(ProgramError::MalformedRecord)
        } else if bytes[0] == 0 {
            match CreateMintArgs::decoding(bytes.subrange(1, bytes.len() as int)) {
                Ok(args) => Ok(BasicMintInstruction::CreateMint(args)),
                Err(e) => Err(e),
            }
        } else if bytes[0] == 1 {
            match TransferMintArgs::decoding(bytes.subrange(1, bytes.len() as int)) {
                Ok(args) => Ok(BasicMintInstruction::TransferMint(args)),
                Err(e) => Err(e),
            }
        } else {
            Err(ProgramError::UnknownInstruction)
        }
    }

    fn to_vec(&self) -> (v: Vec<u8>) {
        let mut v: Vec<u8> = Vec::new();
        match self {
            BasicMintInstruction::CreateMint(args) => {
                v.push(0);
                let payload = args.to_vec();
                crate::bytes::put_bytes(&mut v, payload.as_slice());
            },
            BasicMintInstruction::TransferMint(args) => {
                v.push(1);
                let payload = args.to_vec();
                crate::bytes::put_bytes(&mut v, payload.as_slice());
            },
        }
        v
    }

    fn try_from_slice(data: &[u8]) -> (r: Result<Self, ProgramError>) {
        if data.len() == 0 {
            return Err(ProgramError::MalformedRecord);
        }
        let tag = data[0];
        let payload = slice_subrange(data, 1, data.len());
        if tag == 0 {
            match CreateMintArgs::try_from_slice(payload) {
                Ok(args) => Ok(BasicMintInstruction::CreateMint(args)),
                Err(e) => Err(e),
            }
        } else if tag == 1 {
            match TransferMintArgs::try_from_slice(payload) {
                Ok(args) => Ok(BasicMintInstruction::TransferMint(args)),
                Err(e) => Err(e),
            }
        } else {
            Err(ProgramError::UnknownInstruction)
        }
    }

    proof fn lemma_round_trip(&self) {
        let bytes = self.encoding();
        match self {
            BasicMintInstruction::CreateMint(args) => {
                args.lemma_round_trip();
                assert(bytes.subrange(1, bytes.len() as int) =~= args.encoding());
            },
            BasicMintInstruction::TransferMint(args) => {
                args.lemma_round_trip();
                assert(bytes.subrange(1, bytes.len() as int) =~= args.encoding());
            },
        }
    }

    proof fn lemma_canonical(bytes: Seq<u8>) {
        if bytes.len() > 0 {
            let payload = bytes.subrange(1, bytes.len() as int);
            CreateMintArgs::lemma_canonical(payload);
            TransferMintArgs::lemma_canonical(payload);
            assert(seq![bytes[0]] + payload =~= bytes);
        }
    }
}

/// What an invocation of the mint program comes to: the program identifier
/// is checked first, then the instruction is decoded, and only then does
/// the handler that the instruction names look at the accounts.
pub open spec fn process_outcome(
    program_id: Address,
    accounts: Seq<AccountState>,
    instruction_data: Seq<u8>,
) -> Result<EffectView, ProgramError> {
    if program_id@ != ID@ {
        Err(ProgramError::IncorrectProgramId)
    } else {
        match BasicMintInstruction::decoding(instruction_data) {
            Err(e) => Err(e),
            Ok(BasicMintInstruction::CreateMint(args)) => as_mint(
                create_mint_plan(accounts, args, program_address(mint_seeds(), ID@)),
            ),
            Ok(BasicMintInstruction::TransferMint(args)) => as_transfer(
                transfer_mint_plan(accounts, args, program_address(mint_seeds(), ID@)),
            ),
        }
    }
}

/// Handles one invocation of the mint program. Nothing is kept from one
/// invocation to the next.
pub fn process(program_id: &Address, accounts: &[Account], instruction_data: &[u8]) -> (r: Result<
    Effect,
    ProgramError,
>)
    ensures
        outcome(r) == process_outcome(*program_id, states(accounts@), instruction_data@),
{
    if !check_id(program_id.as_array()) {
        return Err(ProgramError::IncorrectProgramId);
    }
    let instruction = match BasicMintInstruction::try_from_slice(instruction_data) {
        Ok(instruction) => instruction,
        Err(e) => {
            return Err(e);
        },
    };
    match instruction {
        BasicMintInstruction::CreateMint(args) => match create_mint(program_id, accounts, args) {
            Ok(effect) => Ok(Effect::Mint(effect)),
            Err(e) => Err(e),
        },
        BasicMintInstruction::TransferMint(args) => match transfer_mint(
            program_id,
            accounts,
            args,
        ) {
            Ok(effect) => Ok(Effect::Transfer(effect)),
            Err(e) => Err(e),
        },
    }
}

/// Number of bytes of the instruction with the given tag, the tag included.
pub open spec fn instruction_width(tag: u8) -> nat {
    if tag == 0 {
        106
    } else {
        10
    }
}

/// An instruction buffer whose tag names no instruction is refused with
/// `UnknownInstruction`, whatever the accounts are.
pub proof fn lemma_unknown_tag_rejected(accounts: Seq<AccountState>, instruction_data: Seq<u8>)
    requires
        instruction_data.len() > 0,
        instruction_data[0] > 1,
    ensures
        BasicMintInstruction::decoding(instruction_data) == Err::<
            BasicMintInstruction,
            ProgramError,
        >(ProgramError::UnknownInstruction),
        process_outcome(program(), accounts, instruction_data) == Err::<EffectView, ProgramError>(
            ProgramError::UnknownInstruction,
        ),
{
}

/// An instruction buffer that is cut short, be it empty or one that ends
/// before the payload of its tag does, is refused with `MalformedRecord`,
/// whatever the accounts are; so is one that goes on after its payload.
pub proof fn lemma_wrong_width_rejected(accounts: Seq<AccountState>, instruction_data: Seq<u8>)
    requires
        instruction_data.len() == 0 || (instruction_data[0] <= 1 && instruction_data.len()
            != instruction_width(instruction_data[0])),
    ensures
        BasicMintInstruction::decoding(instruction_data) == Err::<
            BasicMintInstruction,
            ProgramError,
        >(ProgramError::MalformedRecord),
        process_outcome(program(), accounts, instruction_data) == Err::<EffectView, ProgramError>(
            ProgramError::MalformedRecord,
        ),
{
}

} // verus!
