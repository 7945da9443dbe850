//! The counter program: one shared counter and one counter per authority.

use vstd::prelude::*;
use crate::account::{states, Account, AccountState};
use crate::address::{program_address, Address};
use crate::bytes::{
    get_u64_le, lemma_u64_le_of_bytes, lemma_u64_le_round_trip, put_u64_le, same_bytes, u64_le,
    u64_of_le,
};
use crate::codec::Codec;
use crate::counter::accounts::{Counter, CounterAuthority};
use crate::counter::instructions::increase_counter::increase_counter_update;
use crate::counter::instructions::increase_counter_authority::increase_counter_authority_update;
use crate::counter::instructions::init_counter::init_counter_plan;
use crate::counter::instructions::init_counter_authority::init_counter_authority_plan;
use crate::counter::instructions::{
    increase_counter, increase_counter_authority, init_counter, init_counter_authority,
    InitCounterArgs, InitCounterAuthorityArgs,
};
use crate::effect::{as_create, as_update, outcome, Effect, EffectView};
use crate::error::ProgramError;

pub mod accounts;
pub mod error;
pub mod events;
pub mod instructions;

verus! {

/// The identifier that the counter program is deployed under.
pub const ID: [u8; 32] = [
    107, 152, 138, 190, 152, 8, 14, 136, 190, 77, 94, 219, 16, 203, 105, 89, 129, 12, 233, 6, 227,
    205, 48, 176, 102, 60, 234, 39, 197, 153, 25, 168,
];

/// Whether `id` is the identifier of the counter program.
pub fn check_id(id: &[u8; 32]) -> (r: bool)
    ensures
        r == (id@ == ID@),
{
    same_bytes(id.as_slice(), ID.as_slice())
}

/// The counter program's own address.
pub open spec fn program() -> Address {
    Address { bytes: ID }
}

/// The identifier of the counter program, as an address.
pub fn id() -> (a: Address)
    ensures
        a == program(),
        a@ == ID@,
{
    Address::new_from_array(ID)
}

/// An instruction of the counter program: a one-byte tag, then the
/// instruction's payload.
#[derive(Clone, Copy, Debug, PartialEq, Eq, Structural)]
pub enum CounterInstruction {
    /// Creates the shared counter. Accounts: the payer, who signs; the
    /// counter, which is changed; the system program.
    InitCounter(InitCounterArgs),
    /// Increases the shared counter. Accounts: the counter, which is changed.
    IncreaseCounter,
    /// Creates the payer's own counter. Accounts: the payer, who signs; the
    /// counter, which is changed; the system program.
    InitCounterAuhthority(InitCounterAuthorityArgs),
    /// Increases the signer's own counter. Accounts: the authority, who
    /// signs; the counter, which is changed.
    IncreaseCounterAuthority,
}

impl Codec for CounterInstruction {
    open spec fn encoding(&self) -> Seq<u8> {
        match self {
            CounterInstruction::InitCounter(args) => seq![0u8] + u64_le(args.count),
            CounterInstruction::IncreaseCounter => seq![1u8],
            CounterInstruction::InitCounterAuhthority(params) => seq![2u8] + u64_le(params.count),
            CounterInstruction::IncreaseCounterAuthority => seq![3u8],
        }
    }

    open spec fn decoding(bytes: Seq<u8>) -> Result<Self, ProgramError> {
        if bytes.len() == 0 {
            Err(ProgramError::MalformedRecord)
        } else if bytes[0] == 0 {
            if bytes.len() == 9 {
                Ok(
                    CounterInstruction::InitCounter(
                        InitCounterArgs { count: u64_of_le(bytes.subrange(1, 9)) },
                    ),
                )
            } else {
                Err(ProgramError::MalformedRecord)
            }
        } else if bytes[0] == 1 {
            if bytes.len() == 1 {
                Ok(CounterInstruction::IncreaseCounter)
            } else {
                Err(ProgramError::MalformedRecord)
            }
        } else if bytes[0] == 2 {
            if bytes.len() == 9 {
                Ok(
                    CounterInstruction::InitCounterAuhthority(
                        InitCounterAuthorityArgs { count: u64_of_le(bytes.subrange(1, 9)) },
                    ),
                )
            } else {
                Err(ProgramError::MalformedRecord)
            }
        } else if bytes[0] == 3 {
            if bytes.len() == 1 {
                Ok(CounterInstruction::IncreaseCounterAuthority)
            } else {
                Err(ProgramError::MalformedRecord)
            }
        } else {
            Err(ProgramError::UnknownInstruction)
        }
    }

    fn to_vec(&self) -> (v: Vec<u8>) {
        let mut v: Vec<u8> = Vec::new();
        match self {
            CounterInstruction::InitCounter(args) => {
                v.push(0);
                put_u64_le(&mut v, args.count);
            },
            CounterInstruction::IncreaseCounter => {
                v.push(1);
            },
            CounterInstruction::InitCounterAuhthority(params) => {
                v.push(2);
                put_u64_le(&mut v, params.count);
            },
            CounterInstruction::IncreaseCounterAuthority => {
                v.push(3);
            },
        }
        assert(v@ =~= self.encoding());
        v
    }

    fn try_from_slice(data: &[u8]) -> (r: Result<Self, ProgramError>) {
        if data.len() == 0 {
            return Err(ProgramError::MalformedRecord);
        }
        let tag = data[0];
        if tag == 0 {
            if data.len() != 9 {
                return Err(ProgramError::MalformedRecord);
            }
            Ok(CounterInstruction::InitCounter(InitCounterArgs { count: get_u64_le(data, 1) }))
        } else if tag == 1 {
            if data.len() != 1 {
                return Err(ProgramError::MalformedRecord);
            }
            Ok(CounterInstruction::IncreaseCounter)
        } else if tag == 2 {
            if data.len() != 9 {
                return Err(ProgramError::MalformedRecord);
            }
            Ok(
                CounterInstruction::InitCounterAuhthority(
                    InitCounterAuthorityArgs { count: get_u64_le(data, 1) },
                ),
            )
        } else if tag == 3 {
            if data.len() != 1 {
                return Err(ProgramError::MalformedRecord);
            }
            Ok(CounterInstruction::IncreaseCounterAuthority)
        } else {
            Err(ProgramError::UnknownInstruction)
        }
    }

    proof fn lemma_round_trip(&self) {
        match self {
            CounterInstruction::InitCounter(args) => {
                lemma_u64_le_round_trip(args.count);
                assert(self.encoding().subrange(1, 9) =~= u64_le(args.count));
            },
            CounterInstruction::IncreaseCounter => {},
            CounterInstruction::InitCounterAuhthority(params) => {
                lemma_u64_le_round_trip(params.count);
                assert(self.encoding().subrange(1, 9) =~= u64_le(params.count));
            },
            CounterInstruction::IncreaseCounterAuthority => {},
        }
    }

    proof fn lemma_canonical(bytes: Seq<u8>) {
        if bytes.len() == 9 {
            lemma_u64_le_of_bytes(bytes.subrange(1, 9));
            assert(seq![bytes[0]] + bytes.subrange(1, 9) =~= bytes);
        }
        if bytes.len() == 1 {
            assert(seq![bytes[0]] =~= bytes);
        }
    }
}

/// What an invocation of the counter program comes to: the program
/// identifier is checked first, then the instruction is decoded, and only
/// then does the handler that the instruction names look at the accounts.
pub open spec fn process_outcome(
    program_id: Address,
    accounts: Seq<AccountState>,
    instruction_data: Seq<u8>,
) -> Result<EffectView, ProgramError> {
    if program_id@ != ID@ {
        Err(ProgramError::IncorrectProgramId)
    } else {
        match CounterInstruction::decoding(instruction_data) {
            Err(e) => Err(e),
            Ok(CounterInstruction::InitCounter(args)) => as_create(
                init_counter_plan(
                    program_id,
                    accounts,
                    args,
                    program_address(Counter::seeds(), ID@),
                ),
            ),
            Ok(CounterInstruction::IncreaseCounter) => as_update(
                increase_counter_update(
                    program_id,
                    accounts,
                    program_address(Counter::seeds(), ID@),
                ),
            ),
            Ok(CounterInstruction::InitCounterAuhthority(params)) => as_create(
                init_counter_authority_plan(
                    program_id,
                    accounts,
                    params,
                    program_address(CounterAuthority::seeds(accounts[0].address@), ID@),
                ),
            ),
            Ok(CounterInstruction::IncreaseCounterAuthority) => as_update(
                increase_counter_authority_update(
                    program_id,
                    accounts,
                    program_address(CounterAuthority::seeds(accounts[0].address@), ID@),
                ),
            ),
        }
    }
}

/// Handles one invocation of the counter program. Nothing is kept from one
/// invocation to the next.
pub fn process(program_id: &Address, accounts: &[Account], instruction_data: &[u8]) -> (r: Result<
    Effect,
    ProgramError,
>)
    ensures
        outcome(r) == process_outcome(*program_id, states(accounts@), instruction_data@),
{
    if !check_id(program_id.as_array()) {
        return Err(ProgramError::IncorrectProgramId);
    }
    let instruction = match CounterInstruction::try_from_slice(instruction_data) {
        Ok(instruction) => instruction,
        Err(e) => {
            return Err(e);
        },
    };
    match instruction {
        CounterInstruction::InitCounter(params) => match init_counter(
            program_id,
            accounts,
            params,
        ) {
            Ok(effect) => Ok(Effect::Create(effect)),
            Err(e) => Err(e),
        },
        CounterInstruction::IncreaseCounter => match increase_counter(program_id, accounts) {
            Ok(effect) => Ok(Effect::Update(effect)),
            Err(e) => Err(e),
        },
        CounterInstruction::InitCounterAuhthority(params) => match init_counter_authority(
            program_id,
            accounts,
            params,
        ) {
            Ok(effect) => Ok(Effect::Create(effect)),
            Err(e) => Err(e),
        },
        CounterInstruction::IncreaseCounterAuthority => match increase_counter_authority(
            program_id,
            accounts,
        ) {
            Ok(effect) => Ok(Effect::Update(effect)),
            Err(e) => Err(e),
        },
    }
}

/// An instruction buffer whose tag names no instruction is refused with
/// `UnknownInstruction`, whatever the accounts are.
pub proof fn lemma_unknown_tag_rejected(accounts: Seq<AccountState>, instruction_data: Seq<u8>)
    requires
        instruction_data.len() > 0,
        instruction_data[0] > 3,
    ensures
        CounterInstruction::decoding(instruction_data) == Err::<CounterInstruction, ProgramError>(
            ProgramError::UnknownInstruction,
        ),
        process_outcome(program(), accounts, instruction_data) == Err::<EffectView, ProgramError>(
            ProgramError::UnknownInstruction,
        ),
{
}

/// An instruction buffer that is cut short, be it empty or one that ends
/// before the payload of its tag does, is refused with `MalformedRecord`,
/// whatever the accounts are; so is one that goes on after its payload.
pub proof fn lemma_wrong_width_rejected(accounts: Seq<AccountState>, instruction_data: Seq<u8>)
    requires
        instruction_data.len() == 0 || (instruction_data[0] <= 3 && instruction_data.len()
            != instruction_width(instruction_data[0])),
    ensures
        CounterInstruction::decoding(instruction_data) == Err::<CounterInstruction, ProgramError>(
            ProgramError::MalformedRecord,
        ),
        process_outcome(program(), accounts, instruction_data) == Err::<EffectView, ProgramError>(
            ProgramError::MalformedRecord,
        ),
{
}

/// Number of bytes of the instruction with the given tag, the tag included.
pub open spec fn instruction_width(tag: u8) -> nat {
    if tag == 0 || tag == 2 {
        9
    } else {
        1
    }
}

} // verus!
