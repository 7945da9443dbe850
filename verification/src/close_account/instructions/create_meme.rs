//! Creation of the record.

use vstd::prelude::*;
use crate::account::{check_creation, creation_checks, states, Account, AccountState};
use crate::address::{derivation_view, program_address, seeds_view, Address};
use crate::bytes::put_bytes;
use crate::close_account::accounts::Meme;
use crate::close_account::ID;
use crate::codec::Codec;
use crate::effect::{created, outcome, CreateAccount, CreateAccountView};
use crate::error::ProgramError;

verus! {

/// What creating the record comes to, on accounts
/// `[payer, meme, system program]` and the derivation `derived` of the
/// record's address: the first failed check, or the request to create the
/// record's storage for `program_id` and to store in it the record, which
/// holds its own address.
pub open spec fn create_meme_plan(
    program_id: Address,
    accounts: Seq<AccountState>,
    derived: Option<(Seq<u8>, u8)>,
) -> Result<CreateAccountView, ProgramError> {
    match creation_checks(accounts, derived) {
        Err(e) => Err(e),
        Ok(bump) => Ok(
            CreateAccountView {
                payer: accounts[0].address,
                target: accounts[1].address,
                space: Meme::SPACE,
                owner: program_id,
                signer_seeds: seq![Meme::SEED_PREFIX@, seq![bump]],
                record: (Meme { address: accounts[1].address, bump }).encoding(),
            },
        ),
    }
}

/// Handles the creation of the record, given the derivation of the record's
/// address.
pub fn process_with(
    program_id: &Address,
    accounts: &[Account],
    derived: &Option<(Address, u8)>,
) -> (r: Result<CreateAccount, ProgramError>)
    ensures
        outcome(r) == create_meme_plan(*program_id, states(accounts@), derivation_view(*derived)),
{
    let bump = match check_creation(accounts, derived) {
        Ok(bump) => bump,
        Err(e) => {
            return Err(e);
        },
    };
    let pda = accounts[1].address;
    let meme_data = Meme { bump, address: pda };
    let mut prefix: Vec<u8> = Vec::new();
    put_bytes(&mut prefix, Meme::SEED_PREFIX.as_slice());
    let signer_seeds = vec![prefix, vec![bump]];
    assert(seeds_view(signer_seeds@) =~~= seq![Meme::SEED_PREFIX@, seq![bump]]);
    Ok(
        CreateAccount {
            payer: accounts[0].address,
            target: pda,
            space: Meme::SPACE,
            owner: *program_id,
            signer_seeds,
            record: meme_data.to_vec(),
        },
    )
}

/// Handles the creation of the record: derives the record's address under
/// the close-account program and checks the accounts against it.
pub fn process(program_id: &Address, accounts: &[Account]) -> (r: Result<
    CreateAccount,
    ProgramError,
>)
    ensures
        outcome(r) == create_meme_plan(
            *program_id,
            states(accounts@),
            program_address(Meme::seeds(), ID@),
        ),
{
    let derived = Meme::derive();
    process_with(program_id, accounts, &derived)
}

/// Once the record has been created, its storage has exactly the record's
/// size and decodes to the record with the bump byte of the derivation.
pub proof fn lemma_create_then_read(
    program_id: Address,
    accounts: Seq<AccountState>,
    derived: Option<(Seq<u8>, u8)>,
    lamports: u64,
)
    requires
        create_meme_plan(program_id, accounts, derived) is Ok,
    ensures
        ({
            let plan = create_meme_plan(program_id, accounts, derived)->Ok_0;
            let storage = created(accounts[1], plan, lamports).data;
            &&& derived is Some
            &&& plan.record.len() == plan.space == Meme::SPACE
            &&& storage.len() == Meme::SPACE
            &&& Meme::decoding(storage) == Ok::<Meme, ProgramError>(
                Meme { address: accounts[1].address, bump: derived->Some_0.1 },
            )
        }),
{
    let plan = create_meme_plan(program_id, accounts, derived)->Ok_0;
    let record = Meme { address: accounts[1].address, bump: derived->Some_0.1 };
    record.lemma_round_trip();
    assert(created(accounts[1], plan, lamports).data =~= record.encoding());
}

} // verus!
