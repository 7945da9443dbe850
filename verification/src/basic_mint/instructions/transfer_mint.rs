//! Transfer of tokens of the mint.

use vstd::prelude::*;
use crate::account::{require_address, require_program, states, Account, AccountState};
use crate::address::{derivation_view, is_derived, program_address, seeds_view, Address};
use crate::basic_mint::instructions::create_mint::{
    derive_mint_pda, mint_seeds, MINT_SEED_PREFIX,
};
use crate::basic_mint::{ID, TOKEN_2022_PROGRAM_ID};
use crate::bytes::{
    get_u64_le, lemma_u64_le_of_bytes, lemma_u64_le_round_trip, put_bytes, put_u64_le, u64_le,
    u64_of_le,
};
use crate::codec::Codec;
use crate::effect::{outcome, TransferChecked, TransferCheckedView};
use crate::error::ProgramError;

verus! {

/// The payload of the instruction.
#[derive(Clone, Copy, Debug, PartialEq, Eq, Structural)]
pub struct TransferMintArgs {
    /// Amount of tokens to transfer
    pub amount: u64,
    /// Decimals of the token
    pub decimals: u8,
}

impl Codec for TransferMintArgs {
    open spec fn encoding(&self) -> Seq<u8> {
        u64_le(self.amount) + seq![self.decimals]
    }

    open spec fn decoding(bytes: Seq<u8>) -> Result<Self, ProgramError> {
        if bytes.len() == 9 {
            Ok(TransferMintArgs { amount: u64_of_le(bytes.subrange(0, 8)), decimals: bytes[8] })
        } else {
            Err(ProgramError::MalformedRecord)
        }
    }

    fn to_vec(&self) -> (v: Vec<u8>) {
        let mut v: Vec<u8> = Vec::new();
        put_u64_le(&mut v, self.amount);
        v.push(self.decimals);
        v
    }

    fn try_from_slice(data: &[u8]) -> (r: Result<Self, ProgramError>) {
        if data.len() != 9 {
            return Err(ProgramError::MalformedRecord);
        }
        Ok(TransferMintArgs { amount: get_u64_le(data, 0), decimals: data[8] })
    }

    proof fn lemma_round_trip(&self) {
        lemma_u64_le_round_trip(self.amount);
        assert(self.encoding().subrange(0, 8) =~= u64_le(self.amount));
    }

    proof fn lemma_canonical(bytes: Seq<u8>) {
        if bytes.len() == 9 {
            lemma_u64_le_of_bytes(bytes.subrange(0, 8));
            assert(bytes.subrange(0, 8) + seq![bytes[8]] =~= bytes);
        }
    }
}

/// What transferring tokens comes to, on accounts
/// `[source, mint, destination, authority, token program]` and the
/// derivation `derived` of the mint's address: the first failed check, or
/// the transfer request. An authority that signed transfers in its own
/// name; one that did not must be the mint's address, and the program then
/// authorises the transfer with the mint's seeds.
pub open spec fn transfer_mint_plan(
    accounts: Seq<AccountState>,
    args: TransferMintArgs,
    derived: Option<(Seq<u8>, u8)>,
) -> Result<TransferCheckedView, ProgramError> {
    if accounts.len() != 5 {
        Err(ProgramError::NotEnoughAccounts)
    } else if accounts[4].address@ != TOKEN_2022_PROGRAM_ID@ {
        Err(ProgramError::IncorrectProgramId)
    } else if !accounts[3].is_signer && !is_derived(accounts[3].address@, derived) {
        Err(ProgramError::AddressMismatch)
    } else {
        Ok(
            TransferCheckedView {
                from: accounts[0].address,
                mint: accounts[1].address,
                to: accounts[2].address,
                authority: accounts[3].address,
                amount: args.amount,
                decimals: args.decimals,
                token_program: accounts[4].address,
                signer_seeds: if accounts[3].is_signer {
                    None
                } else {
                    Some(seq![MINT_SEED_PREFIX@, seq![derived->Some_0.1]])
                },
            },
        )
    }
}

/// Handles a transfer, given the derivation of the mint's address.
pub fn transfer_mint_with(
    _program_id: &Address,
    accounts: &[Account],
    args: TransferMintArgs,
    derived: &Option<(Address, u8)>,
) -> (r: Result<TransferChecked, ProgramError>)
    ensures
        outcome(r) == transfer_mint_plan(states(accounts@), args, derivation_view(*derived)),
{
    if accounts.len() != 5 {
        return Err(ProgramError::NotEnoughAccounts);
    }
    let from_token_account = &accounts[0];
    let mint = &accounts[1];
    let to_token_account = &accounts[2];
    let authority = &accounts[3];
    let token_program = &accounts[4];

    // Validate token program
    let token_2022 = Address::new_from_array(TOKEN_2022_PROGRAM_ID);
    if let Err(e) = require_program(token_program, &token_2022) {
        return Err(e);
    }

    // Either the authority signed, or the program signs for its own address
    let signer_seeds = if authority.is_signer {
        None
    } else {
        if let Err(e) = require_address(authority, derived) {
            return Err(e);
        }
        let bump = match derived {
            Some(found) => found.1,
            None => {
                return Err(ProgramError::AddressMismatch);
            },
        };
        let mut prefix: Vec<u8> = Vec::new();
        put_bytes(&mut prefix, MINT_SEED_PREFIX.as_slice());
        let seeds = vec![prefix, vec![bump]];
        assert(seeds_view(seeds@) =~~= seq![MINT_SEED_PREFIX@, seq![bump]]);
        Some(seeds)
    };
    Ok(
        TransferChecked {
            from: from_token_account.address,
            mint: mint.address,
            to: to_token_account.address,
            authority: authority.address,
            amount: args.amount,
            decimals: args.decimals,
            token_program: token_program.address,
            signer_seeds,
        },
    )
}

/// Handles a transfer: derives the mint's address under the mint program
/// where the authority did not sign.
pub fn transfer_mint(
    _program_id: &Address,
    accounts: &[Account],
    args: TransferMintArgs,
) -> (r: Result<TransferChecked, ProgramError>)
    ensures
        outcome(r) == transfer_mint_plan(
            states(accounts@),
            args,
            program_address(mint_seeds(), ID@),
        ),
{
    if accounts.len() == 5 && !accounts[3].is_signer {
        let derived = derive_mint_pda(&Address::new_from_array(ID));
        transfer_mint_with(_program_id, accounts, args, &derived)
    } else {
        transfer_mint_with(_program_id, accounts, args, &None)
    }
}

} // verus!
