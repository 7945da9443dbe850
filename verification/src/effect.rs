//! What a handler asks the host to do once an instruction is accepted.
//!
//! A handler reads the accounts and never changes them: it either refuses
//! the instruction or returns the one change that the host then carries out.

use vstd::prelude::*;
use crate::account::AccountState;
use crate::address::{seeds_view, Address};
use crate::error::ProgramError;

verus! {

/// A request to the account-creation service: fund `target` from `payer`
/// with the balance that exempts `space` bytes from rent, give it `space`
/// bytes owned by `owner`, authorised by `signer_seeds`, and then store
/// `record` at the front of those bytes.
#[derive(Debug)]
pub struct CreateAccount {
    pub payer: Address,
    pub target: Address,
    pub space: usize,
    pub owner: Address,
    pub signer_seeds: Vec<Vec<u8>>,
    pub record: Vec<u8>,
}

/// A creation request as plain values.
pub struct CreateAccountView {
    pub payer: Address,
    pub target: Address,
    pub space: usize,
    pub owner: Address,
    pub signer_seeds: Seq<Seq<u8>>,
    pub record: Seq<u8>,
}

impl View for CreateAccount {
    type V = CreateAccountView;

    open spec fn view(&self) -> CreateAccountView {
        CreateAccountView {
            payer: self.payer,
            target: self.target,
            space: self.space,
            owner: self.owner,
            signer_seeds: seeds_view(self.signer_seeds@),
            record: self.record@,
        }
    }
}

/// New contents for the storage of `target`, and the text to log, if any.
#[derive(Debug)]
pub struct RecordUpdate {
    pub target: Address,
    pub data: Vec<u8>,
    pub log: Option<Vec<u8>>,
}

/// A record update as plain values.
pub struct RecordUpdateView {
    pub target: Address,
    pub data: Seq<u8>,
    pub log: Option<Seq<u8>>,
}

impl View for RecordUpdate {
    type V = RecordUpdateView;

    open spec fn view(&self) -> RecordUpdateView {
        RecordUpdateView {
            target: self.target,
            data: self.data@,
            log: match self.log {
                Some(text) => Some(text@),
                None => None,
            },
        }
    }
}

/// The end of the storage of `target`: its whole balance goes to
/// `recipient`, whose balance becomes `recipient_lamports`; its balance and
/// its length become zero; and it is handed to `new_owner`.
#[derive(Clone, Copy, Debug)]
pub struct CloseAccount {
    pub target: Address,
    pub recipient: Address,
    pub recipient_lamports: u64,
    pub new_owner: Address,
}

/// A closure as plain values.
pub struct CloseAccountView {
    pub target: Address,
    pub recipient: Address,
    pub recipient_lamports: u64,
    pub new_owner: Address,
}

impl View for CloseAccount {
    type V = CloseAccountView;

    open spec fn view(&self) -> CloseAccountView {
        CloseAccountView {
            target: self.target,
            recipient: self.recipient,
            recipient_lamports: self.recipient_lamports,
            new_owner: self.new_owner,
        }
    }
}

/// How an instruction sent to another program refers to one account.
#[derive(Clone, Copy, Debug)]
pub struct AccountMeta {
    pub address: Address,
    pub is_writable: bool,
    pub is_signer: bool,
}

impl AccountMeta {
    /// An account that the instruction may change.
    pub fn writable(address: &Address) -> (m: Self)
        ensures
            m == (AccountMeta { address: *address, is_writable: true, is_signer: false }),
    {
        AccountMeta { address: *address, is_writable: true, is_signer: false }
    }

    /// An account that the instruction only reads.
    pub fn readonly(address: &Address) -> (m: Self)
        ensures
            m == (AccountMeta { address: *address, is_writable: false, is_signer: false }),
    {
        AccountMeta { address: *address, is_writable: false, is_signer: false }
    }

    /// An account that the instruction only reads and that signs it.
    pub fn readonly_signer(address: &Address) -> (m: Self)
        ensures
            m == (AccountMeta { address: *address, is_writable: false, is_signer: true }),
    {
        AccountMeta { address: *address, is_writable: false, is_signer: true }
    }
}

/// An instruction for another program: the program, the accounts it is
/// given, and its payload, byte for byte.
#[derive(Debug)]
pub struct Instruction {
    pub program_id: Address,
    pub accounts: Vec<AccountMeta>,
    pub data: Vec<u8>,
}

/// An instruction as plain values.
pub struct InstructionView {
    pub program_id: Address,
    pub accounts: Seq<AccountMeta>,
    pub data: Seq<u8>,
}

impl View for Instruction {
    type V = InstructionView;

    open spec fn view(&self) -> InstructionView {
        InstructionView { program_id: self.program_id, accounts: self.accounts@, data: self.data@ }
    }
}

/// A request to the token program to initialise `mint` with `decimals`
/// decimals under the given authorities.
#[derive(Clone, Copy, Debug)]
pub struct InitializeMint {
    pub mint: Address,
    pub decimals: u8,
    pub mint_authority: Address,
    pub freeze_authority: Option<Address>,
    pub token_program: Address,
}

/// The requests that create a mint with its metadata, in the order in which
/// the host makes them: create the storage, point the mint at its metadata,
/// initialise the mint, and write the metadata.
#[derive(Debug)]
pub struct MintPlan {
    pub create: CreateAccount,
    pub metadata_pointer: Instruction,
    pub initialize_mint: InitializeMint,
    pub token_metadata: Instruction,
}

/// The requests that create a mint, as plain values.
pub struct MintPlanView {
    pub create: CreateAccountView,
    pub metadata_pointer: InstructionView,
    pub initialize_mint: InitializeMint,
    pub token_metadata: InstructionView,
}

impl View for MintPlan {
    type V = MintPlanView;

    open spec fn view(&self) -> MintPlanView {
        MintPlanView {
            create: self.create@,
            metadata_pointer: self.metadata_pointer@,
            initialize_mint: self.initialize_mint,
            token_metadata: self.token_metadata@,
        }
    }
}

/// A request to the token program to move `amount` tokens of `mint`, which
/// has `decimals` decimals, from `from` to `to` on the word of `authority`.
/// Where the authority is an address of this program, `signer_seeds` holds
/// the seeds that authorise the transfer in its name.
#[derive(Debug)]
pub struct TransferChecked {
    pub from: Address,
    pub mint: Address,
    pub to: Address,
    pub authority: Address,
    pub amount: u64,
    pub decimals: u8,
    pub token_program: Address,
    pub signer_seeds: Option<Vec<Vec<u8>>>,
}

/// A transfer request as plain values.
pub struct TransferCheckedView {
    pub from: Address,
    pub mint: Address,
    pub to: Address,
    pub authority: Address,
    pub amount: u64,
    pub decimals: u8,
    pub token_program: Address,
    pub signer_seeds: Option<Seq<Seq<u8>>>,
}

impl View for TransferChecked {
    type V = TransferCheckedView;

    open spec fn view(&self) -> TransferCheckedView {
        TransferCheckedView {
            from: self.from,
            mint: self.mint,
            to: self.to,
            authority: self.authority,
            amount: self.amount,
            decimals: self.decimals,
            token_program: self.token_program,
            signer_seeds: match self.signer_seeds {
                Some(seeds) => Some(seeds_view(seeds@)),
                None => None,
            },
        }
    }
}

/// What the host is to do for an accepted instruction.
#[derive(Debug)]
pub enum Effect {
    Create(CreateAccount),
    Update(RecordUpdate),
    Close(CloseAccount),
    Mint(MintPlan),
    Transfer(TransferChecked),
}

/// An effect as plain values.
pub enum EffectView {
    Create(CreateAccountView),
    Update(RecordUpdateView),
    Close(CloseAccountView),
    Mint(MintPlanView),
    Transfer(TransferCheckedView),
}

impl View for Effect {
    type V = EffectView;

    open spec fn view(&self) -> EffectView {
        match self {
            Effect::Create(e) => EffectView::Create(e@),
            Effect::Update(e) => EffectView::Update(e@),
            Effect::Close(e) => EffectView::Close(e@),
            Effect::Mint(e) => EffectView::Mint(e@),
            Effect::Transfer(e) => EffectView::Transfer(e@),
        }
    }
}

/// A creation outcome as an effect.
pub open spec fn as_create(r: Result<CreateAccountView, ProgramError>) -> Result<
    EffectView,
    ProgramError,
> {
    match r {
        Ok(e) => Ok(EffectView::Create(e)),
        Err(e) => Err(e),
    }
}

/// An update outcome as an effect.
pub open spec fn as_update(r: Result<RecordUpdateView, ProgramError>) -> Result<
    EffectView,
    ProgramError,
> {
    match r {
        Ok(e) => Ok(EffectView::Update(e)),
        Err(e) => Err(e),
    }
}

/// A closure outcome as an effect.
pub open spec fn as_close(r: Result<CloseAccountView, ProgramError>) -> Result<
    EffectView,
    ProgramError,
> {
    match r {
        Ok(e) => Ok(EffectView::Close(e)),
        Err(e) => Err(e),
    }
}

/// A mint-creation outcome as an effect.
pub open spec fn as_mint(r: Result<MintPlanView, ProgramError>) -> Result<
    EffectView,
    ProgramError,
> {
    match r {
        Ok(e) => Ok(EffectView::Mint(e)),
        Err(e) => Err(e),
    }
}

/// A transfer outcome as an effect.
pub open spec fn as_transfer(r: Result<TransferCheckedView, ProgramError>) -> Result<
    EffectView,
    ProgramError,
> {
    match r {
        Ok(e) => Ok(EffectView::Transfer(e)),
        Err(e) => Err(e),
    }
}

/// The outcome of a handler as plain values.
pub open spec fn outcome<T: View>(r: Result<T, ProgramError>) -> Result<T::V, ProgramError> {
    match r {
        Ok(effect) => Ok(effect@),
        Err(e) => Err(e),
    }
}

/// The storage `data` once `record` is stored at its front.
pub open spec fn stored(data: Seq<u8>, record: Seq<u8>) -> Seq<u8>
    recommends
        record.len() <= data.len(),
{
    record + data.subrange(record.len() as int, data.len() as int)
}

/// Storage of `space` bytes as the account-creation service hands it out:
/// all zero.
pub open spec fn fresh_storage(space: nat) -> Seq<u8> {
    Seq::new(space, |i: int| 0u8)
}

/// The target of `create` once the host has carried the request out and
/// funded the target with `lamports`.
pub open spec fn created(
    target: AccountState,
    create: CreateAccountView,
    lamports: u64,
) -> AccountState {
    AccountState {
        address: target.address,
        owner: create.owner,
        lamports,
        data: stored(fresh_storage(create.space as nat), create.record),
        is_signer: target.is_signer,
        is_writable: target.is_writable,
    }
}

/// The target of `update` once the host has carried the update out.
pub open spec fn updated(target: AccountState, update: RecordUpdateView) -> AccountState {
    AccountState {
        address: target.address,
        owner: target.owner,
        lamports: target.lamports,
        data: update.data,
        is_signer: target.is_signer,
        is_writable: target.is_writable,
    }
}

/// The target of `close` once the host has carried the closure out.
pub open spec fn closed(target: AccountState, close: CloseAccountView) -> AccountState {
    AccountState {
        address: target.address,
        owner: close.new_owner,
        lamports: 0,
        data: Seq::empty(),
        is_signer: target.is_signer,
        is_writable: target.is_writable,
    }
}

/// The recipient of `close` once the host has carried the closure out.
pub open spec fn credited(recipient: AccountState, close: CloseAccountView) -> AccountState {
    AccountState {
        address: recipient.address,
        owner: recipient.owner,
        lamports: close.recipient_lamports,
        data: recipient.data,
        is_signer: recipient.is_signer,
        is_writable: recipient.is_writable,
    }
}

} // verus!
