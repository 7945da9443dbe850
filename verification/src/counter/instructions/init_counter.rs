//! Creation of the shared counter.

use vstd::prelude::*;
use crate::account::{check_creation, creation_checks, states, Account, AccountState};
use crate::address::{derivation_view, program_address, seeds_view, Address};
use crate::bytes::{
    get_u64_le, lemma_u64_le_of_bytes, lemma_u64_le_round_trip, put_bytes, put_u64_le, u64_le,
    u64_of_le,
};
use crate::codec::Codec;
use crate::effect::{created, outcome, CreateAccount, CreateAccountView};
use crate::error::ProgramError;
use crate::counter::accounts::Counter;
use crate::counter::ID;

verus! {

/// The payload of the instruction: the count that the counter starts with.
#[derive(Clone, Copy, Debug, PartialEq, Eq, Structural)]
pub struct InitCounterArgs {
    pub count: u64,
}

impl Codec for InitCounterArgs {
    open spec fn encoding(&self) -> Seq<u8> {
        u64_le(self.count)
    }

    open spec fn decoding(bytes: Seq<u8>) -> Result<Self, ProgramError> {
        if bytes.len() == 8 {
            Ok(InitCounterArgs { count: u64_of_le(bytes) })
        } else {
            Err(ProgramError::MalformedRecord)
        }
    }

    fn to_vec(&self) -> (v: Vec<u8>) {
        let mut v: Vec<u8> = Vec::new();
        put_u64_le(&mut v, self.count);
        v
    }

    fn try_from_slice(data: &[u8]) -> (r: Result<Self, ProgramError>) {
        if data.len() != 8 {
            return Err(ProgramError::MalformedRecord);
        }
        assert(data@.subrange(0, 8) =~= data@);
        Ok(InitCounterArgs { count: get_u64_le(data, 0) })
    }

    proof fn lemma_round_trip(&self) {
        lemma_u64_le_round_trip(self.count);
    }

    proof fn lemma_canonical(bytes: Seq<u8>) {
        if bytes.len() == 8 {
            lemma_u64_le_of_bytes(bytes);
        }
    }
}

/// What creating the shared counter comes to, on accounts
/// `[payer, counter, system program]` and the derivation `derived` of the
/// counter's address: the first failed check, or the request to create the
/// counter's storage for `program_id` and to store the record in it.
pub open spec fn init_counter_plan(
    program_id: Address,
    accounts: Seq<AccountState>,
    args: InitCounterArgs,
    derived: Option<(Seq<u8>, u8)>,
) -> Result<CreateAccountView, ProgramError> {
    match creation_checks(accounts, derived) {
        Err(e) => Err(e),
        Ok(bump) => Ok(
            CreateAccountView {
                payer: accounts[0].address,
                target: accounts[1].address,
                space: Counter::SPACE,
                owner: program_id,
                signer_seeds: seq![Counter::SEED_PREFIX@, seq![bump]],
                record: (Counter { bump, count: args.count }).encoding(),
            },
        ),
    }
}

/// Handles the creation of the shared counter, given the derivation of the
/// counter's address.
pub fn init_counter_with(
    program_id: &Address,
    accounts: &[Account],
    args: InitCounterArgs,
    derived: &Option<(Address, u8)>,
) -> (r: Result<CreateAccount, ProgramError>)
    ensures
        outcome(r) == init_counter_plan(
            *program_id,
            states(accounts@),
            args,
            derivation_view(*derived),
        ),
{
    let bump = match check_creation(accounts, derived) {
        Ok(bump) => bump,
        Err(e) => {
            return Err(e);
        },
    };
    let counter_data = Counter { bump, count: args.count };
    let mut prefix: Vec<u8> = Vec::new();
    put_bytes(&mut prefix, Counter::SEED_PREFIX.as_slice());
    let signer_seeds = vec![prefix, vec![bump]];
    assert(seeds_view(signer_seeds@) =~~= seq![Counter::SEED_PREFIX@, seq![bump]]);
    Ok(
        CreateAccount {
            payer: accounts[0].address,
            target: accounts[1].address,
            space: Counter::SPACE,
            owner: *program_id,
            signer_seeds,
            record: counter_data.to_vec(),
        },
    )
}

/// Handles the creation of the shared counter: derives the counter's
/// address under the counter program and checks the accounts against it.
pub fn init_counter(
    program_id: &Address,
    accounts: &[Account],
    args: InitCounterArgs,
) -> (r: Result<CreateAccount, ProgramError>)
    ensures
        outcome(r) == init_counter_plan(
            *program_id,
            states(accounts@),
            args,
            program_address(Counter::seeds(), ID@),
        ),
{
    let derived = Counter::derive();
    init_counter_with(program_id, accounts, args, &derived)
}

/// Once the shared counter has been created, its storage has exactly the
/// record's size and decodes to the record with the bump byte of the
/// derivation and the count that the instruction gave.
pub proof fn lemma_create_then_read(
    program_id: Address,
    accounts: Seq<AccountState>,
    args: InitCounterArgs,
    derived: Option<(Seq<u8>, u8)>,
    lamports: u64,
)
    requires
        init_counter_plan(program_id, accounts, args, derived) is Ok,
    ensures
        ({
            let plan = init_counter_plan(program_id, accounts, args, derived)->Ok_0;
            let storage = created(accounts[1], plan, lamports).data;
            &&& derived is Some
            &&& plan.record.len() == plan.space == Counter::SPACE
            &&& storage.len() == Counter::SPACE
            &&& Counter::decoding(storage) == Ok::<Counter, ProgramError>(
                Counter { bump: derived->Some_0.1, count: args.count },
            )
        }),
{
    let plan = init_counter_plan(program_id, accounts, args, derived)->Ok_0;
    let record = Counter { bump: derived->Some_0.1, count: args.count };
    record.lemma_round_trip();
    assert(created(accounts[1], plan, lamports).data =~= record.encoding());
}

} // verus!
