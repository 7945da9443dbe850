//! Closure of the record.

use vstd::prelude::*;
use crate::account::{states, system_program, Account, AccountState, SYSTEM_PROGRAM_ID};
use crate::address::is_derived;
use crate::close_account::instructions::create_meme::create_meme_plan;
use crate::address::Address;
use crate::effect::{closed, credited, outcome, CloseAccount, CloseAccountView};
use crate::error::ProgramError;

verus! {

/// The balance of the recipient once the whole balance of the closed
/// account has gone to it. An account that is closed into itself keeps what
/// it had.
pub open spec fn balance_after_close(recipient: AccountState, closed: AccountState) -> int {
    if recipient.address@ == closed.address@ {
        closed.lamports as int
    } else {
        recipient.lamports + closed.lamports
    }
}

/// What closing the record comes to, on accounts
/// `[payer, meme, system program]`: the whole balance of the record goes to
/// the payer, the record's storage is emptied, and the storage is handed
/// back to the system program.
pub open spec fn close_meme_plan(accounts: Seq<AccountState>) -> Result<
    CloseAccountView,
    ProgramError,
> {
    if accounts.len() != 3 {
        Err(ProgramError::NotEnoughAccounts)
    } else if balance_after_close(accounts[0], accounts[1]) > u64::MAX {
        Err(ProgramError::ArithmeticOverflow)
    } else {
        Ok(
            CloseAccountView {
                target: accounts[1].address,
                recipient: accounts[0].address,
                recipient_lamports: balance_after_close(accounts[0], accounts[1]) as u64,
                new_owner: system_program(),
            },
        )
    }
}

/// Handles the closure of the record.
pub fn process(_program_id: &Address, accounts: &[Account]) -> (r: Result<
    CloseAccount,
    ProgramError,
>)
    ensures
        outcome(r) == close_meme_plan(states(accounts@)),
{
    if accounts.len() != 3 {
        return Err(ProgramError::NotEnoughAccounts);
    }
    let payer = &accounts[0];
    let meme = &accounts[1];

    let taking_lamports = meme.lamports;
    let recipient_lamports = if payer.address == meme.address {
        taking_lamports
    } else {
        match payer.lamports.checked_add(taking_lamports) {
            Some(sum) => sum,
            None => {
                return Err(ProgramError::ArithmeticOverflow);
            },
        }
    };
    Ok(
        CloseAccount {
            target: meme.address,
            recipient: payer.address,
            recipient_lamports,
            new_owner: Address::new_from_array(SYSTEM_PROGRAM_ID),
        },
    )
}

/// Closing is final. A closed record has no balance and no bytes and
/// belongs to the system program. Creating the record again at its address
/// then goes as on an address that was never used: it is refused only for a
/// payer that did not sign, an address that is not the derived one, or a
/// third account that is not the system program.
///
/// The record and the payer are meant to be two accounts: an account that is
/// closed into itself keeps its balance.
pub proof fn lemma_close_is_final(
    program_id: Address,
    accounts: Seq<AccountState>,
    derived: Option<(Seq<u8>, u8)>,
)
    requires
        close_meme_plan(accounts) is Ok,
        accounts[0].address@ != accounts[1].address@,
    ensures
        ({
            let close = close_meme_plan(accounts)->Ok_0;
            let payer = credited(accounts[0], close);
            let meme = closed(accounts[1], close);
            let again = create_meme_plan(program_id, seq![payer, meme, accounts[2]], derived);
            &&& payer.lamports == accounts[0].lamports + accounts[1].lamports
            &&& meme.lamports == 0
            &&& meme.data.len() == 0
            &&& meme.unused()
            &&& meme.owner@ == SYSTEM_PROGRAM_ID@
            &&& again != Err::<crate::effect::CreateAccountView, ProgramError>(
                ProgramError::AlreadyInitialized,
            )
            &&& again is Ok <==> payer.is_signer && is_derived(meme.address@, derived)
                && accounts[2].address@ == SYSTEM_PROGRAM_ID@
        }),
{
}

} // verus!
