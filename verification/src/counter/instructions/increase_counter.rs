//! Increase of the shared counter.

use vstd::prelude::*;
use crate::account::{require_address, require_initialized, states, Account, AccountState};
use crate::address::{derivation_view, is_derived, program_address, Address};
use crate::codec::Codec;
use crate::counter::accounts::Counter;
use crate::counter::{check_id, ID};
use crate::effect::{outcome, updated, RecordUpdate, RecordUpdateView};
use crate::error::ProgramError;

verus! {

/// What increasing the shared counter comes to, on the one account
/// `[counter]` and the derivation `derived` of the counter's address: the
/// first failed check, or the counter's storage with the count one higher
/// and the bump byte unchanged.
pub open spec fn increase_counter_update(
    program_id: Address,
    accounts: Seq<AccountState>,
    derived: Option<(Seq<u8>, u8)>,
) -> Result<RecordUpdateView, ProgramError> {
    if program_id@ != ID@ {
        Err(ProgramError::IncorrectProgramId)
    } else if accounts.len() != 1 {
        Err(ProgramError::NotEnoughAccounts)
    } else if !accounts[0].funded() {
        Err(ProgramError::Uninitialized)
    } else if !is_derived(accounts[0].address@, derived) {
        Err(ProgramError::AddressMismatch)
    } else {
        match Counter::decoding(accounts[0].data) {
            Err(e) => Err(e),
            Ok(record) => if record.count == u64::MAX {
                Err(ProgramError::CounterOverflow)
            } else {
                Ok(
                    RecordUpdateView {
                        target: accounts[0].address,
                        data: (Counter {
                            bump: record.bump,
                            count: (record.count + 1) as u64,
                        }).encoding(),
                        log: None,
                    },
                )
            },
        }
    }
}

/// Handles the increase of the shared counter, given the derivation of the
/// counter's address.
pub fn process_with(
    program_id: &Address,
    accounts: &[Account],
    derived: &Option<(Address, u8)>,
) -> (r: Result<RecordUpdate, ProgramError>)
    ensures
        outcome(r) == increase_counter_update(
            *program_id,
            states(accounts@),
            derivation_view(*derived),
        ),
{
    if !check_id(program_id.as_array()) {
        return Err(ProgramError::IncorrectProgramId);
    }
    if accounts.len() != 1 {
        return Err(ProgramError::NotEnoughAccounts);
    }
    let counter = &accounts[0];
    if let Err(e) = require_initialized(counter) {
        return Err(e);
    }
    if let Err(e) = require_address(counter, derived) {
        return Err(e);
    }
    let mut counter_data = match Counter::try_from_slice(counter.data.as_slice()) {
        Ok(record) => record,
        Err(e) => {
            return Err(e);
        },
    };
    counter_data.count = match counter_data.count.checked_add(1) {
        Some(count) => count,
        None => {
            return Err(ProgramError::CounterOverflow);
        },
    };
    Ok(RecordUpdate { target: counter.address, data: counter_data.to_vec(), log: None })
}

/// Handles the increase of the shared counter: derives the counter's
/// address under the counter program and checks the account against it.
pub fn process(program_id: &Address, accounts: &[Account]) -> (r: Result<
    RecordUpdate,
    ProgramError,
>)
    ensures
        outcome(r) == increase_counter_update(
            *program_id,
            states(accounts@),
            program_address(Counter::seeds(), ID@),
        ),
{
    let derived = Counter::derive();
    process_with(program_id, accounts, &derived)
}

/// The accounts after `n` increases of the shared counter in a row, each
/// carried out by the host before the next, or the failure of the first
/// increase that is refused.
pub open spec fn increased(
    accounts: Seq<AccountState>,
    derived: Option<(Seq<u8>, u8)>,
    n: nat,
) -> Result<Seq<AccountState>, ProgramError>
    decreases n,
{
    if n == 0 {
        Ok(accounts)
    } else {
        match increase_counter_update(crate::counter::program(), accounts, derived) {
            Err(e) => Err(e),
            Ok(update) => increased(seq![updated(accounts[0], update)], derived, (n - 1) as nat),
        }
    }
}

/// After `n` successful increases in a row, the counter that held `record`
/// holds the same bump byte and a count that is higher by `n`.
pub proof fn lemma_increases_add_up(
    accounts: Seq<AccountState>,
    derived: Option<(Seq<u8>, u8)>,
    record: Counter,
    n: nat,
)
    requires
        accounts.len() == 1,
        Counter::decoding(accounts[0].data) == Ok::<Counter, ProgramError>(record),
        increased(accounts, derived, n) is Ok,
    ensures
        record.count + n <= u64::MAX,
        ({
            let after = increased(accounts, derived, n)->Ok_0;
            &&& after.len() == 1
            &&& Counter::decoding(after[0].data) == Ok::<Counter, ProgramError>(
                Counter { bump: record.bump, count: (record.count + n) as u64 },
            )
        }),
    decreases n,
{
    if n > 0 {
        let update = increase_counter_update(crate::counter::program(), accounts, derived)->Ok_0;
        let next = Counter { bump: record.bump, count: (record.count + 1) as u64 };
        next.lemma_round_trip();
        lemma_increases_add_up(seq![updated(accounts[0], update)], derived, next, (n - 1) as nat);
    }
}

/// A funded counter at its derived address whose count is at least `n`
/// below the largest 64-bit value can be increased `n` times in a row.
pub proof fn lemma_increases_succeed(
    accounts: Seq<AccountState>,
    derived: Option<(Seq<u8>, u8)>,
    record: Counter,
    n: nat,
)
    requires
        accounts.len() == 1,
        accounts[0].funded(),
        is_derived(accounts[0].address@, derived),
        Counter::decoding(accounts[0].data) == Ok::<Counter, ProgramError>(record),
        record.count + n <= u64::MAX,
    ensures
        increased(accounts, derived, n) is Ok,
    decreases n,
{
    if n > 0 {
        let update = increase_counter_update(crate::counter::program(), accounts, derived)->Ok_0;
        let next = Counter { bump: record.bump, count: (record.count + 1) as u64 };
        next.lemma_round_trip();
        lemma_increases_succeed(seq![updated(accounts[0], update)], derived, next, (n - 1) as nat);
    }
}

} // verus!
