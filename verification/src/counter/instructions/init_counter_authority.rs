//! Creation of an authority's counter.

use vstd::prelude::*;
use crate::account::{check_creation, creation_checks, states, Account, AccountState};
use crate::address::{derivation_view, program_address, seeds_view, Address};
use crate::bytes::{
    get_u64_le, lemma_u64_le_of_bytes, lemma_u64_le_round_trip, put_bytes, put_u64_le, u64_le,
    u64_of_le,
};
use crate::codec::Codec;
use crate::counter::accounts::CounterAuthority;
use crate::counter::{check_id, ID};
use crate::effect::{created, outcome, CreateAccount, CreateAccountView};
use crate::error::ProgramError;

verus! {

/// The payload of the instruction: the count that the counter starts with.
#[derive(Clone, Copy, Debug, PartialEq, Eq, Structural)]
pub struct Params {
    pub count: u64,
}

impl Codec for Params {
    open spec fn encoding(&self) -> Seq<u8> {
        u64_le(self.count)
    }

    open spec fn decoding(bytes: Seq<u8>) -> Result<Self, ProgramError> {
        if bytes.len() == 8 {
            Ok(Params { count: u64_of_le(bytes) })
        } else {
            Err(ProgramError::MalformedRecord)
        }
    }

    fn to_vec(&self) -> (v: Vec<u8>) {
        let mut v: Vec<u8> = Vec::new();
        put_u64_le(&mut v, self.count);
        v
    }

    fn try_from_slice(data: &[u8]) -> (r: Result<Self, ProgramError>) {
        if data.len() != 8 {
            return Err(ProgramError::MalformedRecord);
        }
        assert(data@.subrange(0, 8) =~= data@);
        Ok(Params { count: get_u64_le(data, 0) })
    }

    proof fn lemma_round_trip(&self) {
        lemma_u64_le_round_trip(self.count);
    }

    proof fn lemma_canonical(bytes: Seq<u8>) {
        if bytes.len() == 8 {
            lemma_u64_le_of_bytes(bytes);
        }
    }
}

/// What creating an authority's counter comes to, on accounts
/// `[payer, counter, system program]` and the derivation `derived` of the
/// address of the payer's counter: the first failed check, or the request to
/// create the counter's storage for the program and to store in it the
/// record that names the payer as authority.
pub open spec fn init_counter_authority_plan(
    program_id: Address,
    accounts: Seq<AccountState>,
    params: Params,
    derived: Option<(Seq<u8>, u8)>,
) -> Result<CreateAccountView, ProgramError> {
    if program_id@ != ID@ {
        Err(ProgramError::IncorrectProgramId)
    } else {
        match creation_checks(accounts, derived) {
            Err(e) => Err(e),
            Ok(bump) => Ok(
                CreateAccountView {
                    payer: accounts[0].address,
                    target: accounts[1].address,
                    space: CounterAuthority::SPACE,
                    owner: program_id,
                    signer_seeds: seq![
                        CounterAuthority::SEED_PREFIX@,
                        accounts[0].address@,
                        seq![bump],
                    ],
                    record: (CounterAuthority {
                        authority: accounts[0].address,
                        bump,
                        count: params.count,
                    }).encoding(),
                },
            ),
        }
    }
}

/// Handles the creation of an authority's counter, given the derivation of
/// the address of the payer's counter.
pub fn process_with(
    program_id: &Address,
    accounts: &[Account],
    params: Params,
    derived: &Option<(Address, u8)>,
) -> (r: Result<CreateAccount, ProgramError>)
    ensures
        outcome(r) == init_counter_authority_plan(
            *program_id,
            states(accounts@),
            params,
            derivation_view(*derived),
        ),
{
    if !check_id(program_id.as_array()) {
        return Err(ProgramError::IncorrectProgramId);
    }
    let bump = match check_creation(accounts, derived) {
        Ok(bump) => bump,
        Err(e) => {
            return Err(e);
        },
    };
    let payer = accounts[0].address;
    let counter_data = CounterAuthority { bump, count: params.count, authority: payer };
    let mut prefix: Vec<u8> = Vec::new();
    put_bytes(&mut prefix, CounterAuthority::SEED_PREFIX.as_slice());
    let mut who: Vec<u8> = Vec::new();
    put_bytes(&mut who, payer.as_array().as_slice());
    let signer_seeds = vec![prefix, who, vec![bump]];
    assert(seeds_view(signer_seeds@) =~~= seq![
        CounterAuthority::SEED_PREFIX@,
        payer@,
        seq![bump],
    ]);
    Ok(
        CreateAccount {
            payer,
            target: accounts[1].address,
            space: CounterAuthority::SPACE,
            owner: *program_id,
            signer_seeds,
            record: counter_data.to_vec(),
        },
    )
}

/// Handles the creation of an authority's counter: derives the address of
/// the payer's counter under the counter program and checks the accounts
/// against it.
pub fn process(program_id: &Address, accounts: &[Account], params: Params) -> (r: Result<
    CreateAccount,
    ProgramError,
>)
    ensures
        outcome(r) == init_counter_authority_plan(
            *program_id,
            states(accounts@),
            params,
            program_address(CounterAuthority::seeds(states(accounts@)[0].address@), ID@),
        ),
{
    if accounts.len() != 3 {
        return process_with(program_id, accounts, params, &None);
    }
    let derived = CounterAuthority::derive(&accounts[0].address);
    process_with(program_id, accounts, params, &derived)
}

/// Once an authority's counter has been created, its storage has exactly
/// the record's size and decodes to the record that names the payer as
/// authority, with the bump byte of the derivation and the count that the
/// instruction gave.
pub proof fn lemma_create_then_read(
    program_id: Address,
    accounts: Seq<AccountState>,
    params: Params,
    derived: Option<(Seq<u8>, u8)>,
    lamports: u64,
)
    requires
        init_counter_authority_plan(program_id, accounts, params, derived) is Ok,
    ensures
        ({
            let plan = init_counter_authority_plan(program_id, accounts, params, derived)->Ok_0;
            let storage = created(accounts[1], plan, lamports).data;
            &&& derived is Some
            &&& plan.record.len() == plan.space == CounterAuthority::SPACE
            &&& storage.len() == CounterAuthority::SPACE
            &&& CounterAuthority::decoding(storage) == Ok::<CounterAuthority, ProgramError>(
                CounterAuthority {
                    authority: accounts[0].address,
                    bump: derived->Some_0.1,
                    count: params.count,
                },
            )
        }),
{
    let plan = init_counter_authority_plan(program_id, accounts, params, derived)->Ok_0;
    let record = CounterAuthority {
        authority: accounts[0].address,
        bump: derived->Some_0.1,
        count: params.count,
    };
    record.lemma_round_trip();
    assert(created(accounts[1], plan, lamports).data =~= record.encoding());
}

} // verus!
