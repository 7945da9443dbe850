use pda_records::account::{Account, SYSTEM_PROGRAM_ID};
use pda_records::address::Address;
use pda_records::basic_mint::instructions::create_mint::{
    calculate_mint_space, create_mint_with, derive_mint_pda, get_string_len,
    initialize_metadata_pointer, initialize_token_metadata,
};
use pda_records::basic_mint::instructions::transfer_mint::transfer_mint_with;
use pda_records::basic_mint::instructions::{
    create_mint, transfer_mint, CreateMintArgs, TransferMintArgs,
};
use pda_records::basic_mint::{process, BasicMintInstruction, ID, TOKEN_2022_PROGRAM_ID};
use pda_records::codec::Codec;
use pda_records::effect::{AccountMeta, Effect};
use pda_records::error::ProgramError;

fn program_id() -> Address {
    Address::new_from_array(ID)
}

fn token_address() -> Address {
    Address::new_from_array(TOKEN_2022_PROGRAM_ID)
}

fn account(address: Address, lamports: u64, is_signer: bool) -> Account {
    Account {
        address,
        owner: Address::new_from_array(SYSTEM_PROGRAM_ID),
        lamports,
        data: Vec::new(),
        is_signer,
        is_writable: true,
    }
}

fn wallet(seed: u8, is_signer: bool) -> Account {
    account(Address::new_from_array([seed; 32]), 1_000_000_000, is_signer)
}

fn token_program() -> Account {
    account(token_address(), 1, false)
}

fn system_program() -> Account {
    account(Address::new_from_array(SYSTEM_PROGRAM_ID), 1, false)
}

fn mint_args() -> CreateMintArgs {
    let mut name = [0u8; 32];
    name[..5].copy_from_slice(b"Token");
    let mut symbol = [0u8; 8];
    symbol[..3].copy_from_slice(b"TKN");
    let mut uri = [0u8; 64];
    uri[..11].copy_from_slice(b"https://t.k");
    CreateMintArgs { decimals: 9, name, symbol, uri }
}

fn metadata_bytes(name: &[u8], symbol: &[u8], uri: &[u8]) -> Vec<u8> {
    let mut data = vec![210, 225, 30, 162, 88, 184, 77, 141];
    for text in [name, symbol, uri] {
        data.extend_from_slice(&(text.len() as u32).to_le_bytes());
        data.extend_from_slice(text);
    }
    data
}

#[test]
fn mint_space_adds_the_extensions() {
    assert_eq!(calculate_mint_space(0, 0, 0), 235);
    assert_eq!(calculate_mint_space(5, 3, 11), 254);
    assert_eq!(calculate_mint_space(32, 8, 64), 339);
    assert_eq!(calculate_mint_space(1, 0, 0), 236);
}

#[test]
fn string_length_stops_at_the_first_zero() {
    assert_eq!(get_string_len(b"Token\0\0\0"), 5);
    assert_eq!(get_string_len(b"Tok\0en\0"), 3);
    assert_eq!(get_string_len(b"\0Token"), 0);
    assert_eq!(get_string_len(b"Token"), 5);
    assert_eq!(get_string_len(b""), 0);
    assert_eq!(get_string_len(&[0u8; 32]), 0);
    assert_eq!(get_string_len(&[1u8; 32]), 32);
}

#[test]
fn metadata_pointer_payload_is_tag_authority_address() {
    let mint = Address::new_from_array([1u8; 32]);
    let authority = Address::new_from_array([2u8; 32]);
    let metadata = Address::new_from_array([3u8; 32]);
    let instruction =
        initialize_metadata_pointer(&mint, &authority, &metadata, &token_address());
    let mut expected = vec![39u8, 0];
    expected.extend_from_slice(&[2u8; 32]);
    expected.extend_from_slice(&[3u8; 32]);
    assert_eq!(instruction.data, expected);
    assert_eq!(instruction.data.len(), 66);
    assert_eq!(instruction.program_id, token_address());
    assert_eq!(instruction.accounts.len(), 1);
    assert_eq!(instruction.accounts[0].address, mint);
    assert!(instruction.accounts[0].is_writable);
    assert!(!instruction.accounts[0].is_signer);
}

#[test]
fn token_metadata_payload_prefixes_each_text_with_its_length() {
    let mint = Address::new_from_array([1u8; 32]);
    let update = Address::new_from_array([2u8; 32]);
    let authority = Address::new_from_array([4u8; 32]);
    let instruction = initialize_token_metadata(
        &mint,
        &update,
        &mint,
        &authority,
        b"Token",
        b"TKN",
        b"https://t.k",
        &token_address(),
    )
    .unwrap();
    assert_eq!(
        instruction.data,
        vec![
            210, 225, 30, 162, 88, 184, 77, 141, 5, 0, 0, 0, b'T', b'o', b'k', b'e', b'n', 3, 0,
            0, 0, b'T', b'K', b'N', 11, 0, 0, 0, b'h', b't', b't', b'p', b's', b':', b'/', b'/',
            b't', b'.', b'k',
        ]
    );
    assert_eq!(instruction.program_id, token_address());
    let metas: Vec<(Address, bool, bool)> = instruction
        .accounts
        .iter()
        .map(|m: &AccountMeta| (m.address, m.is_writable, m.is_signer))
        .collect();
    assert_eq!(
        metas,
        vec![
            (mint, true, false),
            (update, false, false),
            (mint, false, false),
            (authority, false, true),
        ]
    );
}

#[test]
fn token_metadata_payload_is_bounded() {
    let a = Address::new_from_array([1u8; 32]);
    let fits = initialize_token_metadata(&a, &a, &a, &a, &[7u8; 236], b"", b"", &a).unwrap();
    assert_eq!(fits.data.len(), 256);
    assert_eq!(fits.data, metadata_bytes(&[7u8; 236], b"", b""));
    assert_eq!(
        initialize_token_metadata(&a, &a, &a, &a, &[7u8; 237], b"", b"", &a).unwrap_err(),
        ProgramError::EncodingOverflow
    );
    assert_eq!(
        initialize_token_metadata(&a, &a, &a, &a, &[7u8; 100], &[7u8; 100], &[7u8; 100], &a)
            .unwrap_err(),
        ProgramError::EncodingOverflow
    );
    let empty = initialize_token_metadata(&a, &a, &a, &a, b"", b"", b"", &a).unwrap();
    assert_eq!(empty.data, metadata_bytes(b"", b"", b""));
    assert_eq!(empty.data.len(), 20);
}

#[test]
fn mint_plan_lists_the_four_requests() {
    let (mint, bump) = derive_mint_pda(&program_id()).unwrap();
    let payer = wallet(7, true);
    let payer_address = payer.address;
    let accounts = vec![payer, account(mint, 0, false), token_program(), system_program()];
    let plan = create_mint(&program_id(), &accounts, mint_args()).unwrap();

    assert_eq!(plan.create.payer, payer_address);
    assert_eq!(plan.create.target, mint);
    assert_eq!(plan.create.space, 254);
    assert_eq!(plan.create.owner, token_address());
    assert_eq!(plan.create.signer_seeds, vec![b"mint".to_vec(), vec![bump]]);
    assert_eq!(plan.create.record, Vec::<u8>::new());

    let mut pointer = vec![39u8, 0];
    pointer.extend_from_slice(&[7u8; 32]);
    pointer.extend_from_slice(mint.as_array());
    assert_eq!(plan.metadata_pointer.data, pointer);
    assert_eq!(plan.metadata_pointer.program_id, token_address());
    assert_eq!(plan.metadata_pointer.accounts.len(), 1);
    assert_eq!(plan.metadata_pointer.accounts[0].address, mint);

    assert_eq!(plan.initialize_mint.mint, mint);
    assert_eq!(plan.initialize_mint.decimals, 9);
    assert_eq!(plan.initialize_mint.mint_authority, payer_address);
    assert_eq!(plan.initialize_mint.freeze_authority, Some(payer_address));
    assert_eq!(plan.initialize_mint.token_program, token_address());

    assert_eq!(plan.token_metadata.data, metadata_bytes(b"Token", b"TKN", b"https://t.k"));
    assert_eq!(plan.token_metadata.accounts.len(), 4);
    assert_eq!(plan.token_metadata.accounts[1].address, payer_address);
    assert_eq!(plan.token_metadata.accounts[3].address, payer_address);
    assert!(plan.token_metadata.accounts[3].is_signer);
}

#[test]
fn mint_texts_may_fill_their_fields() {
    let target = Address::new_from_array([9u8; 32]);
    let accounts =
        vec![wallet(7, true), account(target, 0, false), token_program(), system_program()];
    let args = CreateMintArgs { decimals: 0, name: [65; 32], symbol: [66; 8], uri: [67; 64] };
    let plan = create_mint_with(&program_id(), &accounts, args, &Some((target, 3))).unwrap();
    assert_eq!(plan.create.space, 339);
    assert_eq!(plan.create.signer_seeds, vec![b"mint".to_vec(), vec![3]]);
    assert_eq!(plan.token_metadata.data, metadata_bytes(&[65; 32], &[66; 8], &[67; 64]));
    assert_eq!(plan.token_metadata.data.len(), 124);

    let blank = CreateMintArgs { decimals: 0, name: [0; 32], symbol: [0; 8], uri: [0; 64] };
    let plan = create_mint_with(&program_id(), &accounts, blank, &Some((target, 3))).unwrap();
    assert_eq!(plan.create.space, 235);
    assert_eq!(plan.token_metadata.data, metadata_bytes(b"", b"", b""));
}

#[test]
fn mint_creation_checks_fail_in_order() {
    let (mint, _) = derive_mint_pda(&program_id()).unwrap();
    let good = vec![wallet(7, true), account(mint, 0, false), token_program(), system_program()];
    assert!(create_mint(&program_id(), &good, mint_args()).is_ok());
    assert_eq!(
        create_mint(&program_id(), &good[..3], mint_args()).unwrap_err(),
        ProgramError::NotEnoughAccounts
    );
    let unsigned = vec![wallet(7, false), wallet(9, false), wallet(3, false), wallet(4, false)];
    assert_eq!(
        create_mint(&program_id(), &unsigned, mint_args()).unwrap_err(),
        ProgramError::MissingSignature
    );
    let no_token = vec![wallet(7, true), wallet(9, false), wallet(3, false), system_program()];
    assert_eq!(
        create_mint(&program_id(), &no_token, mint_args()).unwrap_err(),
        ProgramError::IncorrectProgramId
    );
    let no_system = vec![wallet(7, true), wallet(9, false), token_program(), wallet(4, false)];
    assert_eq!(
        create_mint(&program_id(), &no_system, mint_args()).unwrap_err(),
        ProgramError::IncorrectProgramId
    );
    let elsewhere = vec![wallet(7, true), wallet(9, false), token_program(), system_program()];
    assert_eq!(
        create_mint(&program_id(), &elsewhere, mint_args()).unwrap_err(),
        ProgramError::AddressMismatch
    );
    let exists = vec![wallet(7, true), account(mint, 5, false), token_program(), system_program()];
    assert_eq!(
        create_mint(&program_id(), &exists, mint_args()).unwrap_err(),
        ProgramError::AlreadyInitialized
    );
}

#[test]
fn a_signing_authority_transfers_in_its_own_name() {
    let accounts = vec![
        wallet(1, false),
        wallet(2, false),
        wallet(3, false),
        wallet(4, true),
        token_program(),
    ];
    let args = TransferMintArgs { amount: 500, decimals: 9 };
    let transfer = transfer_mint(&program_id(), &accounts, args).unwrap();
    assert_eq!(transfer.from, accounts[0].address);
    assert_eq!(transfer.mint, accounts[1].address);
    assert_eq!(transfer.to, accounts[2].address);
    assert_eq!(transfer.authority, accounts[3].address);
    assert_eq!(transfer.amount, 500);
    assert_eq!(transfer.decimals, 9);
    assert_eq!(transfer.token_program, token_address());
    assert_eq!(transfer.signer_seeds, None);
}

#[test]
fn the_program_signs_for_its_own_mint() {
    let (mint, bump) = derive_mint_pda(&program_id()).unwrap();
    let accounts = vec![
        wallet(1, false),
        wallet(2, false),
        wallet(3, false),
        account(mint, 1, false),
        token_program(),
    ];
    let args = TransferMintArgs { amount: 500, decimals: 9 };
    let transfer = transfer_mint(&program_id(), &accounts, args).unwrap();
    assert_eq!(transfer.authority, mint);
    assert_eq!(transfer.signer_seeds, Some(vec![b"mint".to_vec(), vec![bump]]));

    let with = transfer_mint_with(&program_id(), &accounts, args, &Some((mint, 200))).unwrap();
    assert_eq!(with.signer_seeds, Some(vec![b"mint".to_vec(), vec![200]]));
}

#[test]
fn transfer_checks_fail_in_order() {
    let args = TransferMintArgs { amount: 500, decimals: 9 };
    let accounts = vec![
        wallet(1, false),
        wallet(2, false),
        wallet(3, false),
        wallet(4, false),
        token_program(),
    ];
    assert_eq!(
        transfer_mint(&program_id(), &accounts[..4], args).unwrap_err(),
        ProgramError::NotEnoughAccounts
    );
    assert_eq!(
        transfer_mint(&program_id(), &accounts, args).unwrap_err(),
        ProgramError::AddressMismatch
    );
    assert_eq!(
        transfer_mint_with(&program_id(), &accounts, args, &None).unwrap_err(),
        ProgramError::AddressMismatch
    );
    let mut no_token = accounts.clone();
    no_token[4] = wallet(5, false);
    no_token[3] = wallet(4, true);
    assert_eq!(
        transfer_mint(&program_id(), &no_token, args).unwrap_err(),
        ProgramError::IncorrectProgramId
    );
}

#[test]
fn mint_dispatch_checks_program_then_instruction_then_accounts() {
    let stranger = Address::new_from_array([1u8; 32]);
    assert_eq!(process(&stranger, &[], &[9]).unwrap_err(), ProgramError::IncorrectProgramId);
    assert_eq!(process(&program_id(), &[], &[2]).unwrap_err(), ProgramError::UnknownInstruction);
    assert_eq!(process(&program_id(), &[], &[]).unwrap_err(), ProgramError::MalformedRecord);
    assert_eq!(process(&program_id(), &[], &[1, 0]).unwrap_err(), ProgramError::MalformedRecord);
    let transfer =
        BasicMintInstruction::TransferMint(TransferMintArgs { amount: 1, decimals: 0 }).to_vec();
    assert_eq!(
        process(&program_id(), &[], &transfer).unwrap_err(),
        ProgramError::NotEnoughAccounts
    );
    let create = BasicMintInstruction::CreateMint(mint_args()).to_vec();
    assert_eq!(process(&program_id(), &[], &create).unwrap_err(), ProgramError::NotEnoughAccounts);

    let accounts = vec![
        wallet(1, false),
        wallet(2, false),
        wallet(3, false),
        wallet(4, true),
        token_program(),
    ];
    match process(&program_id(), &accounts, &transfer).unwrap() {
        Effect::Transfer(t) => assert_eq!(t.amount, 1),
        _ => panic!("a transfer was asked for"),
    }
    let (mint, _) = derive_mint_pda(&program_id()).unwrap();
    let accounts = vec![wallet(7, true), account(mint, 0, false), token_program(), system_program()];
    match process(&program_id(), &accounts, &create).unwrap() {
        Effect::Mint(plan) => assert_eq!(plan.create.space, 254),
        _ => panic!("a mint was asked for"),
    }
}
