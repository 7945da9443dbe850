//! Accounts as an invocation sees them, and the checks made on them.

use vstd::prelude::*;
use crate::address::{is_derived, derivation_view, matches_derivation, Address};
use crate::error::ProgramError;

verus! {

/// The identifier of the system program, which creates accounts and owns
/// those that no program has claimed.
pub const SYSTEM_PROGRAM_ID: [u8; 32] = [
    0, 0, 0, 0, 0, 0, 0, 0, 0, 0, 0, 0, 0, 0, 0, 0, 0, 0, 0, 0, 0, 0, 0, 0, 0, 0, 0, 0, 0, 0, 0, 0,
];

/// The system program's own address.
pub open spec fn system_program() -> Address {
    Address { bytes: SYSTEM_PROGRAM_ID }
}

/// One account handed to an invocation: where it lives, who owns it, what it
/// holds, and the roles it was given.
#[derive(Clone, Debug)]
pub struct Account {
    pub address: Address,
    pub owner: Address,
    pub lamports: u64,
    pub data: Vec<u8>,
    pub is_signer: bool,
    pub is_writable: bool,
}

/// An account as plain values.
pub struct AccountState {
    pub address: Address,
    pub owner: Address,
    pub lamports: u64,
    pub data: Seq<u8>,
    pub is_signer: bool,
    pub is_writable: bool,
}

impl View for Account {
    type V = AccountState;

    open spec fn view(&self) -> AccountState {
        AccountState {
            address: self.address,
            owner: self.owner,
            lamports: self.lamports,
            data: self.data@,
            is_signer: self.is_signer,
            is_writable: self.is_writable,
        }
    }
}

/// The accounts of an invocation as plain values, in order.
pub open spec fn states(accounts: Seq<Account>) -> Seq<AccountState> {
    Seq::new(accounts.len(), |i: int| accounts[i]@)
}

impl AccountState {
    /// Storage that was never funded nor sized, or that was closed.
    pub open spec fn unused(self) -> bool {
        self.lamports == 0 && self.data.len() == 0
    }

    /// Storage that holds a balance.
    pub open spec fn funded(self) -> bool {
        self.lamports != 0
    }
}

/// Requires that the account signed the transaction.
pub fn require_signer(account: &Account) -> (r: Result<(), ProgramError>)
    ensures
        r == if account@.is_signer {
            Ok::<(), ProgramError>(())
        } else {
            Err(ProgramError::MissingSignature)
        },
{
    if account.is_signer {
        Ok(())
    } else {
        Err(ProgramError::MissingSignature)
    }
}

/// Requires that the account lives at the derived address.
pub fn require_address(account: &Account, derived: &Option<(Address, u8)>) -> (r: Result<
    (),
    ProgramError,
>)
    ensures
        r == if is_derived(account@.address@, derivation_view(*derived)) {
            Ok::<(), ProgramError>(())
        } else {
            Err(ProgramError::AddressMismatch)
        },
{
    if matches_derivation(&account.address, derived) {
        Ok(())
    } else {
        Err(ProgramError::AddressMismatch)
    }
}

/// Requires that the account is owned by `program`.
pub fn require_owner(account: &Account, program: &Address) -> (r: Result<(), ProgramError>)
    ensures
        r == if account@.owner@ == program@ {
            Ok::<(), ProgramError>(())
        } else {
            Err(ProgramError::WrongProgramOwner)
        },
{
    if account.owner == *program {
        Ok(())
    } else {
        Err(ProgramError::WrongProgramOwner)
    }
}

/// Requires that the account's storage is unused: no balance and no bytes.
pub fn require_uninitialized(account: &Account) -> (r: Result<(), ProgramError>)
    ensures
        r == if account@.unused() {
            Ok::<(), ProgramError>(())
        } else {
            Err(ProgramError::AlreadyInitialized)
        },
{
    if account.lamports == 0 && account.data.len() == 0 {
        Ok(())
    } else {
        Err(ProgramError::AlreadyInitialized)
    }
}

/// Requires that the account's storage holds a balance.
pub fn require_initialized(account: &Account) -> (r: Result<(), ProgramError>)
    ensures
        r == if account@.funded() {
            Ok::<(), ProgramError>(())
        } else {
            Err(ProgramError::Uninitialized)
        },
{
    if account.lamports != 0 {
        Ok(())
    } else {
        Err(ProgramError::Uninitialized)
    }
}

/// Requires that the account is the program `expected`.
pub fn require_program(account: &Account, expected: &Address) -> (r: Result<(), ProgramError>)
    ensures
        r == if account@.address@ == expected@ {
            Ok::<(), ProgramError>(())
        } else {
            Err(ProgramError::IncorrectProgramId)
        },
{
    if account.address == *expected {
        Ok(())
    } else {
        Err(ProgramError::IncorrectProgramId)
    }
}

/// What the checks made before creating a record at a derived address give
/// on accounts `[payer, target, system program]`: the bump byte of the
/// derivation, or the first failure.
pub open spec fn creation_checks(
    accounts: Seq<AccountState>,
    derived: Option<(Seq<u8>, u8)>,
) -> Result<u8, ProgramError> {
    if accounts.len() != 3 {
        Err(ProgramError::NotEnoughAccounts)
    } else if !accounts[0].is_signer {
        Err(ProgramError::MissingSignature)
    } else if !is_derived(accounts[1].address@, derived) {
        Err(ProgramError::AddressMismatch)
    } else if !accounts[1].unused() {
        Err(ProgramError::AlreadyInitialized)
    } else if accounts[2].address@ != SYSTEM_PROGRAM_ID@ {
        Err(ProgramError::IncorrectProgramId)
    } else {
        Ok(derived->Some_0.1)
    }
}

/// Makes the checks that precede the creation of a record at a derived
/// address, on accounts `[payer, target, system program]`: the payer signed,
/// the target lives at the derived address and is unused, and the third
/// account is the system program.
pub fn check_creation(accounts: &[Account], derived: &Option<(Address, u8)>) -> (r: Result<
    u8,
    ProgramError,
>)
    ensures
        r == creation_checks(states(accounts@), derivation_view(*derived)),
{
    if accounts.len() != 3 {
        return Err(ProgramError::NotEnoughAccounts);
    }
    if let Err(e) = require_signer(&accounts[0]) {
        return Err(e);
    }
    if let Err(e) = require_address(&accounts[1], derived) {
        return Err(e);
    }
    if let Err(e) = require_uninitialized(&accounts[1]) {
        return Err(e);
    }
    if let Err(e) = require_program(&accounts[2], &Address::new_from_array(SYSTEM_PROGRAM_ID)) {
        return Err(e);
    }
    match derived {
        Some(found) => Ok(found.1),
        None => Err(ProgramError::AddressMismatch),
    }
}

} // verus!
