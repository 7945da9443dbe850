use pda_records::account::{Account, SYSTEM_PROGRAM_ID};
use pda_records::address::Address;
use pda_records::close_account::accounts::Meme;
use pda_records::close_account::instructions::{close_meme as close_handler, create_meme as create_handler};
use pda_records::close_account::{process, CloseAccountInstruction, ID};
use pda_records::codec::Codec;
use pda_records::effect::Effect;
use pda_records::error::ProgramError;

const LAMPORTS_PER_SOL: u64 = 1_000_000_000;
const RENT: u64 = 1_120_560;

fn program_id() -> Address {
    Address::new_from_array(ID)
}

fn system_address() -> Address {
    Address::new_from_array(SYSTEM_PROGRAM_ID)
}

fn wallet(seed: u8, is_signer: bool) -> Account {
    Account {
        address: Address::new_from_array([seed; 32]),
        owner: system_address(),
        lamports: LAMPORTS_PER_SOL,
        data: Vec::new(),
        is_signer,
        is_writable: true,
    }
}

fn unused(address: Address) -> Account {
    Account {
        address,
        owner: system_address(),
        lamports: 0,
        data: Vec::new(),
        is_signer: false,
        is_writable: true,
    }
}

fn system_program() -> Account {
    Account {
        address: system_address(),
        owner: Address::new_from_array([0u8; 32]),
        lamports: 1,
        data: Vec::new(),
        is_signer: false,
        is_writable: false,
    }
}

/// Carries an effect out on the accounts, as the host does.
fn carry_out(accounts: &mut Vec<Account>, effect: Effect) {
    match effect {
        Effect::Create(create) => {
            let target = accounts.iter().position(|a| a.address == create.target).unwrap();
            let payer = accounts.iter().position(|a| a.address == create.payer).unwrap();
            accounts[payer].lamports -= RENT;
            accounts[target].lamports = RENT;
            accounts[target].owner = create.owner;
            accounts[target].data = vec![0u8; create.space];
            accounts[target].data[..create.record.len()].copy_from_slice(&create.record);
        }
        Effect::Close(close) => {
            let target = accounts.iter().position(|a| a.address == close.target).unwrap();
            let recipient = accounts.iter().position(|a| a.address == close.recipient).unwrap();
            accounts[target].lamports = 0;
            accounts[recipient].lamports = close.recipient_lamports;
            accounts[target].data = Vec::new();
            accounts[target].owner = close.new_owner;
        }
        _ => panic!("not an effect of the close-account program"),
    }
}

#[test]
fn create_meme() {
    let payer = wallet(7, true);
    let (meme_addr, bump) = Meme::derive().unwrap();
    let mut accounts = vec![payer, unused(meme_addr), system_program()];

    let ix_data = CloseAccountInstruction::CreateMeme;
    let effect = process(&program_id(), &accounts, &ix_data.to_vec()).unwrap();
    carry_out(&mut accounts, effect);

    let meme_data = Meme::try_from_slice(&accounts[1].data).unwrap();

    assert_eq!(meme_data.bump, bump);
    assert_eq!(meme_data.address, meme_addr)
}

#[test]
fn close_meme() {
    let payer = wallet(7, true);
    let (meme, bump) = Meme::derive().unwrap();
    let record = Account {
        address: meme,
        owner: program_id(),
        lamports: LAMPORTS_PER_SOL,
        data: Meme { bump, address: meme }.to_vec(),
        is_signer: false,
        is_writable: true,
    };
    let mut accounts = vec![payer, record, system_program()];

    let ix_data = CloseAccountInstruction::CloseMeme;
    let effect = process(&program_id(), &accounts, &ix_data.to_vec()).unwrap();
    carry_out(&mut accounts, effect);

    let gone = accounts[1].lamports == 0 && accounts[1].data.is_empty();
    assert!(gone);
    assert_eq!(accounts[1].owner, system_address());
    assert_eq!(accounts[0].lamports, 2 * LAMPORTS_PER_SOL);
}

#[test]
fn create_request_holds_the_record_of_its_own_address() {
    let (meme, bump) = Meme::derive().unwrap();
    let accounts = vec![wallet(7, true), unused(meme), system_program()];
    let create = create_handler::process(&program_id(), &accounts).unwrap();
    assert_eq!(create.payer, accounts[0].address);
    assert_eq!(create.target, meme);
    assert_eq!(create.space, 33);
    assert_eq!(create.owner, program_id());
    assert_eq!(create.signer_seeds, vec![b"meme".to_vec(), vec![bump]]);
    let mut record = meme.to_bytes().to_vec();
    record.push(bump);
    assert_eq!(create.record, record);
}

#[test]
fn meme_creation_goes_by_the_derivation_it_is_given() {
    let target = Address::new_from_array([9u8; 32]);
    let accounts = vec![wallet(7, true), unused(target), system_program()];
    let create =
        create_handler::process_with(&program_id(), &accounts, &Some((target, 77))).unwrap();
    assert_eq!(create.signer_seeds, vec![b"meme".to_vec(), vec![77]]);
    assert_eq!(create.record[32], 77);
    assert_eq!(
        create_handler::process_with(&program_id(), &accounts, &None).unwrap_err(),
        ProgramError::AddressMismatch
    );
}

#[test]
fn meme_creation_checks_fail_in_order() {
    let (meme, _) = Meme::derive().unwrap();
    let good = vec![wallet(7, true), unused(meme), system_program()];
    assert_eq!(
        create_handler::process(&program_id(), &good[..2]).unwrap_err(),
        ProgramError::NotEnoughAccounts
    );
    let unsigned = vec![wallet(7, false), unused(program_id()), wallet(3, false)];
    assert_eq!(
        create_handler::process(&program_id(), &unsigned).unwrap_err(),
        ProgramError::MissingSignature
    );
    let elsewhere = vec![wallet(7, true), wallet(9, false), wallet(3, false)];
    assert_eq!(
        create_handler::process(&program_id(), &elsewhere).unwrap_err(),
        ProgramError::AddressMismatch
    );
    let mut funded = unused(meme);
    funded.lamports = 1;
    assert_eq!(
        create_handler::process(&program_id(), &[wallet(7, true), funded, wallet(3, false)])
            .unwrap_err(),
        ProgramError::AlreadyInitialized
    );
    let mut sized = unused(meme);
    sized.data = vec![0u8; 33];
    assert_eq!(
        create_handler::process(&program_id(), &[wallet(7, true), sized, wallet(3, false)])
            .unwrap_err(),
        ProgramError::AlreadyInitialized
    );
    assert_eq!(
        create_handler::process(&program_id(), &[wallet(7, true), unused(meme), wallet(3, false)])
            .unwrap_err(),
        ProgramError::IncorrectProgramId
    );
}

#[test]
fn closing_hands_the_whole_balance_over() {
    let mut record = unused(Address::new_from_array([9u8; 32]));
    record.lamports = 12;
    record.data = vec![1, 2, 3];
    let mut payer = wallet(7, true);
    payer.lamports = 30;
    let close = close_handler::process(&program_id(), &[payer, record, system_program()]).unwrap();
    assert_eq!(close.target, Address::new_from_array([9u8; 32]));
    assert_eq!(close.recipient, Address::new_from_array([7u8; 32]));
    assert_eq!(close.recipient_lamports, 42);
    assert_eq!(close.new_owner, system_address());
}

#[test]
fn closed_storage_goes_back_to_the_system_program() {
    let close =
        close_handler::process(&program_id(), &[wallet(7, true), wallet(9, false), wallet(3, false)])
            .unwrap();
    assert_eq!(close.new_owner, system_address());
    assert_eq!(close.recipient_lamports, 2 * LAMPORTS_PER_SOL);
}

#[test]
fn closing_needs_three_accounts() {
    assert_eq!(
        close_handler::process(&program_id(), &[wallet(7, true), wallet(8, false)]).unwrap_err(),
        ProgramError::NotEnoughAccounts
    );
    assert_eq!(
        close_handler::process(&program_id(), &[]).unwrap_err(),
        ProgramError::NotEnoughAccounts
    );
}

#[test]
fn closing_refuses_a_balance_that_does_not_fit() {
    let mut payer = wallet(7, true);
    payer.lamports = u64::MAX;
    let mut record = wallet(9, false);
    record.lamports = 1;
    assert_eq!(
        close_handler::process(&program_id(), &[payer.clone(), record.clone(), system_program()])
            .unwrap_err(),
        ProgramError::ArithmeticOverflow
    );
    record.lamports = 0;
    let close = close_handler::process(&program_id(), &[payer, record, system_program()]).unwrap();
    assert_eq!(close.recipient_lamports, u64::MAX);
}

#[test]
fn an_account_closed_into_itself_keeps_its_balance() {
    let mut record = wallet(9, true);
    record.lamports = 12;
    let close =
        close_handler::process(&program_id(), &[record.clone(), record, system_program()]).unwrap();
    assert_eq!(close.recipient_lamports, 12);
}

#[test]
fn a_closed_record_can_be_created_again() {
    let (meme, bump) = Meme::derive().unwrap();
    let mut accounts = vec![wallet(7, true), unused(meme), system_program()];
    let effect = process(&program_id(), &accounts, &[0]).unwrap();
    carry_out(&mut accounts, effect);
    assert_eq!(
        process(&program_id(), &accounts, &[0]).unwrap_err(),
        ProgramError::AlreadyInitialized
    );

    let effect = process(&program_id(), &accounts, &[1]).unwrap();
    carry_out(&mut accounts, effect);
    assert_eq!(accounts[1].lamports, 0);
    assert_eq!(accounts[1].data.len(), 0);
    assert_eq!(accounts[1].owner, system_address());
    assert_eq!(accounts[0].lamports, LAMPORTS_PER_SOL);

    let effect = process(&program_id(), &accounts, &[0]).unwrap();
    carry_out(&mut accounts, effect);
    assert_eq!(Meme::try_from_slice(&accounts[1].data), Ok(Meme { address: meme, bump }));
}

#[test]
fn close_account_dispatch_checks_program_then_instruction_then_accounts() {
    let stranger = Address::new_from_array([1u8; 32]);
    assert_eq!(process(&stranger, &[], &[9]).unwrap_err(), ProgramError::IncorrectProgramId);
    assert_eq!(process(&program_id(), &[], &[2]).unwrap_err(), ProgramError::UnknownInstruction);
    assert_eq!(process(&program_id(), &[], &[]).unwrap_err(), ProgramError::MalformedRecord);
    assert_eq!(process(&program_id(), &[], &[1, 1]).unwrap_err(), ProgramError::MalformedRecord);
    assert_eq!(process(&program_id(), &[], &[0]).unwrap_err(), ProgramError::NotEnoughAccounts);
    assert_eq!(process(&program_id(), &[], &[1]).unwrap_err(), ProgramError::NotEnoughAccounts);
}
