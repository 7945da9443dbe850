//! Increase of an authority's counter.

use vstd::prelude::*;
use crate::account::{
    require_address, require_initialized, require_signer, states, Account, AccountState,
};
use crate::address::{derivation_view, is_derived, program_address, Address};
use crate::codec::Codec;
use crate::counter::accounts::CounterAuthority;
use crate::counter::events::{CounterAuthorityIncreased, CounterEvent};
use crate::counter::{check_id, ID};
use crate::effect::{outcome, updated, RecordUpdate, RecordUpdateView};
use crate::error::ProgramError;
use crate::event::{base64_standard, emit};

verus! {

/// What increasing an authority's counter comes to, on accounts
/// `[authority, counter]` and the derivation `derived` of the address of the
/// authority's counter: the first failed check, or the counter's storage
/// with the count one higher, and the report of the new count as text.
///
/// Only the authority that the record names can increase it: a signer whose
/// counter names someone else is refused with `IllegalAuthority`.
pub open spec fn increase_counter_authority_update(
    program_id: Address,
    accounts: Seq<AccountState>,
    derived: Option<(Seq<u8>, u8)>,
) -> Result<RecordUpdateView, ProgramError> {
    if program_id@ != ID@ {
        Err(ProgramError::IncorrectProgramId)
    } else if accounts.len() != 2 {
        Err(ProgramError::NotEnoughAccounts)
    } else if !accounts[0].is_signer {
        Err(ProgramError::MissingSignature)
    } else if !accounts[1].funded() {
        Err(ProgramError::Uninitialized)
    } else if !is_derived(accounts[1].address@, derived) {
        Err(ProgramError::AddressMismatch)
    } else {
        match CounterAuthority::decoding(accounts[1].data) {
            Err(e) => Err(e),
            Ok(record) => if record.authority@ != accounts[0].address@ {
                Err(ProgramError::IllegalAuthority)
            } else if record.count == u64::MAX {
                Err(ProgramError::CounterOverflow)
            } else {
                Ok(
                    RecordUpdateView {
                        target: accounts[1].address,
                        data: (CounterAuthority {
                            authority: record.authority,
                            bump: record.bump,
                            count: (record.count + 1) as u64,
                        }).encoding(),
                        log: Some(
                            base64_standard(
                                CounterEvent::CounterAuthorityIncreased(
                                    CounterAuthorityIncreased {
                                        new_count: (record.count + 1) as u64,
                                    },
                                ).encoding(),
                            ),
                        ),
                    },
                )
            },
        }
    }
}

/// Handles the increase of an authority's counter, given the derivation of
/// the address of the authority's counter.
pub fn process_with(
    program_id: &Address,
    accounts: &[Account],
    derived: &Option<(Address, u8)>,
) -> (r: Result<RecordUpdate, ProgramError>)
    ensures
        outcome(r) == increase_counter_authority_update(
            *program_id,
            states(accounts@),
            derivation_view(*derived),
        ),
{
    if !check_id(program_id.as_array()) {
        return Err(ProgramError::IncorrectProgramId);
    }
    if accounts.len() != 2 {
        return Err(ProgramError::NotEnoughAccounts);
    }
    let authority = &accounts[0];
    let counter = &accounts[1];
    if let Err(e) = require_signer(authority) {
        return Err(e);
    }
    if let Err(e) = require_initialized(counter) {
        return Err(e);
    }
    if let Err(e) = require_address(counter, derived) {
        return Err(e);
    }
    let mut counter_data = match CounterAuthority::try_from_slice(counter.data.as_slice()) {
        Ok(record) => record,
        Err(e) => {
            return Err(e);
        },
    };
    if !(counter_data.authority == authority.address) {
        return Err(ProgramError::IllegalAuthority);
    }
    counter_data.count = match counter_data.count.checked_add(1) {
        Some(count) => count,
        None => {
            return Err(ProgramError::CounterOverflow);
        },
    };
    let event = CounterEvent::CounterAuthorityIncreased(
        CounterAuthorityIncreased { new_count: counter_data.count },
    );
    let text = match emit(&event) {
        Ok(text) => text,
        Err(e) => {
            return Err(e);
        },
    };
    Ok(RecordUpdate { target: counter.address, data: counter_data.to_vec(), log: Some(text) })
}

/// Handles the increase of an authority's counter: derives the address of
/// the signer's counter under the counter program and checks the accounts
/// against it.
pub fn process(program_id: &Address, accounts: &[Account]) -> (r: Result<
    RecordUpdate,
    ProgramError,
>)
    ensures
        outcome(r) == increase_counter_authority_update(
            *program_id,
            states(accounts@),
            program_address(CounterAuthority::seeds(states(accounts@)[0].address@), ID@),
        ),
{
    if accounts.len() != 2 {
        return process_with(program_id, accounts, &None);
    }
    let derived = CounterAuthority::derive(&accounts[0].address);
    process_with(program_id, accounts, &derived)
}

/// A signer whose counter names another authority is refused with
/// `IllegalAuthority`, and so nothing is written: the refusal carries no
/// update. The counter meant is one that passes the checks made before the
/// record is read: it is funded, lives at the address derived for the
/// signer, and holds a record.
pub proof fn lemma_authority_gating(
    accounts: Seq<AccountState>,
    derived: Option<(Seq<u8>, u8)>,
    record: CounterAuthority,
)
    requires
        accounts.len() == 2,
        accounts[0].is_signer,
        accounts[1].funded(),
        is_derived(accounts[1].address@, derived),
        CounterAuthority::decoding(accounts[1].data) == Ok::<CounterAuthority, ProgramError>(
            record,
        ),
        record.authority@ != accounts[0].address@,
    ensures
        increase_counter_authority_update(crate::counter::program(), accounts, derived) == Err::<
            RecordUpdateView,
            ProgramError,
        >(ProgramError::IllegalAuthority),
{
}

/// Whatever the accounts are, an update of an authority's counter is only
/// ever granted to a signer that the record names, and it changes the count
/// alone, by one.
pub proof fn lemma_only_the_authority_increases(
    accounts: Seq<AccountState>,
    derived: Option<(Seq<u8>, u8)>,
)
    requires
        increase_counter_authority_update(crate::counter::program(), accounts, derived) is Ok,
    ensures
        ({
            let update = increase_counter_authority_update(
                crate::counter::program(),
                accounts,
                derived,
            )->Ok_0;
            let before = CounterAuthority::decoding(accounts[1].data);
            let after = CounterAuthority::decoding(update.data);
            &&& accounts[0].is_signer
            &&& before is Ok
            &&& before->Ok_0.authority@ == accounts[0].address@
            &&& after == Ok::<CounterAuthority, ProgramError>(
                CounterAuthority {
                    authority: before->Ok_0.authority,
                    bump: before->Ok_0.bump,
                    count: (before->Ok_0.count + 1) as u64,
                },
            )
            &&& before->Ok_0.count < u64::MAX
        }),
{
    let before = CounterAuthority::decoding(accounts[1].data)->Ok_0;
    let next = CounterAuthority {
        authority: before.authority,
        bump: before.bump,
        count: (before.count + 1) as u64,
    };
    next.lemma_round_trip();
}

/// The accounts after `n` increases of an authority's counter in a row,
/// each carried out by the host before the next, or the failure of the
/// first increase that is refused.
pub open spec fn increased(
    accounts: Seq<AccountState>,
    derived: Option<(Seq<u8>, u8)>,
    n: nat,
) -> Result<Seq<AccountState>, ProgramError>
    decreases n,
{
    if n == 0 {
        Ok(accounts)
    } else {
        match increase_counter_authority_update(crate::counter::program(), accounts, derived) {
            Err(e) => Err(e),
            Ok(update) => increased(
                seq![accounts[0], updated(accounts[1], update)],
                derived,
                (n - 1) as nat,
            ),
        }
    }
}

/// After `n` successful increases in a row, the counter that held `record`
/// holds the same authority and bump byte and a count that is higher by `n`.
pub proof fn lemma_increases_add_up(
    accounts: Seq<AccountState>,
    derived: Option<(Seq<u8>, u8)>,
    record: CounterAuthority,
    n: nat,
)
    requires
        accounts.len() == 2,
        CounterAuthority::decoding(accounts[1].data) == Ok::<CounterAuthority, ProgramError>(
            record,
        ),
        increased(accounts, derived, n) is Ok,
    ensures
        record.count + n <= u64::MAX,
        ({
            let after = increased(accounts, derived, n)->Ok_0;
            &&& after.len() == 2
            &&& CounterAuthority::decoding(after[1].data) == Ok::<CounterAuthority, ProgramError>(
                CounterAuthority {
                    authority: record.authority,
                    bump: record.bump,
                    count: (record.count + n) as u64,
                },
            )
        }),
    decreases n,
{
    if n > 0 {
        let update = increase_counter_authority_update(
            crate::counter::program(),
            accounts,
            derived,
        )->Ok_0;
        let next = CounterAuthority {
            authority: record.authority,
            bump: record.bump,
            count: (record.count + 1) as u64,
        };
        next.lemma_round_trip();
        lemma_increases_add_up(
            seq![accounts[0], updated(accounts[1], update)],
            derived,
            next,
            (n - 1) as nat,
        );
    }
}

} // verus!
