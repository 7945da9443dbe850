use pda_records::account::SYSTEM_PROGRAM_ID;
use pda_records::address::{matches_derivation, verify, Address};
use pda_records::basic_mint::instructions::create_mint::derive_mint_pda;
use pda_records::close_account::accounts::Meme;
use pda_records::counter::accounts::{Counter, CounterAuthority};

fn counter_program() -> Address {
    Address::new_from_array(pda_records::counter::ID)
}

fn user() -> Address {
    Address::new_from_array([7u8; 32])
}

#[test]
fn program_identifiers_are_the_published_ones() {
    assert_eq!(
        pda_records::counter::ID,
        pinocchio_pubkey::from_str("8F1XtWR4wTs37nnutBvd2MWpCTfb7XAciFYkw5XHaENj")
    );
    assert_eq!(
        pda_records::basic_mint::ID,
        pinocchio_pubkey::from_str("8F1XtWR4wTs37nnutBvd2MWpCTfb7XAciFYkw5XHaENj")
    );
    assert_eq!(
        pda_records::close_account::ID,
        pinocchio_pubkey::from_str("2HXWQuEjgRDbNcMx3X32C1aw4fftVMHyUf9KXYyTiPiD")
    );
    assert_eq!(SYSTEM_PROGRAM_ID, pinocchio_system::ID.to_bytes());
    assert_eq!(pda_records::basic_mint::TOKEN_2022_PROGRAM_ID, pinocchio_token_2022::ID.to_bytes());
}

#[test]
fn check_id_accepts_only_the_program() {
    assert!(pda_records::counter::check_id(&pda_records::counter::ID));
    assert!(!pda_records::counter::check_id(&pda_records::close_account::ID));
    assert!(pda_records::close_account::check_id(&pda_records::close_account::ID));
    assert!(!pda_records::close_account::check_id(&[0u8; 32]));
    assert!(pda_records::basic_mint::check_id(&pda_records::basic_mint::ID));
    let mut near = pda_records::basic_mint::ID;
    near[31] ^= 1;
    assert!(!pda_records::basic_mint::check_id(&near));
    assert_eq!(pda_records::counter::id().to_bytes(), pda_records::counter::ID);
    assert_eq!(pda_records::close_account::id().to_bytes(), pda_records::close_account::ID);
}

#[test]
fn seed_prefixes_are_the_record_names() {
    assert_eq!(&Counter::SEED_PREFIX, b"counter");
    assert_eq!(&CounterAuthority::SEED_PREFIX, b"counter_authority");
    assert_eq!(&Meme::SEED_PREFIX, b"meme");
    assert_eq!(&pda_records::basic_mint::instructions::MINT_SEED_PREFIX, b"mint");
    assert_eq!(Counter::seed_list(), vec![b"counter".to_vec()]);
    assert_eq!(
        CounterAuthority::seed_list(&user()),
        vec![b"counter_authority".to_vec(), vec![7u8; 32]]
    );
    assert_eq!(Meme::seed_list(), vec![b"meme".to_vec()]);
}

#[test]
fn derivation_is_the_platform_search() {
    let seeds = vec![b"counter".to_vec()];
    let (address, bump) = pda_records::address::derive(&seeds, &counter_program()).unwrap();
    let (expected, expected_bump) = solana_address::Address::find_program_address(
        &[b"counter"],
        &solana_address::Address::new_from_array(pda_records::counter::ID),
    );
    assert_eq!(address.to_bytes(), expected.to_bytes());
    assert_eq!(bump, expected_bump);
    assert_ne!(address, counter_program());
    assert!(!solana_address::Address::new_from_array(address.to_bytes()).is_on_curve());
}

#[test]
fn derivation_is_repeatable() {
    let seeds = vec![b"counter_authority".to_vec(), vec![7u8; 32]];
    let first = pda_records::address::derive(&seeds, &counter_program());
    let second = pda_records::address::derive(&seeds, &counter_program());
    assert!(first.is_some());
    assert_eq!(first, second);
}

#[test]
fn derivation_depends_on_seeds_and_owner() {
    let one = pda_records::address::derive(&vec![b"counter".to_vec()], &counter_program()).unwrap();
    let other_seed = pda_records::address::derive(&vec![b"meme".to_vec()], &counter_program()).unwrap();
    let other_owner = pda_records::address::derive(
        &vec![b"counter".to_vec()],
        &Address::new_from_array(pda_records::close_account::ID),
    )
    .unwrap();
    assert_ne!(one.0, other_seed.0);
    assert_ne!(one.0, other_owner.0);
}

#[test]
fn derived_address_verifies() {
    let seeds = vec![b"counter_authority".to_vec(), vec![7u8; 32]];
    let (address, _) = pda_records::address::derive(&seeds, &counter_program()).unwrap();
    assert!(verify(&address, &seeds, &counter_program()));
    assert!(!verify(&user(), &seeds, &counter_program()));
    assert!(!verify(&address, &vec![b"counter".to_vec()], &counter_program()));
    assert!(!verify(&address, &seeds, &user()));
}

#[test]
fn derivation_without_an_address_verifies_nothing() {
    let too_long = vec![vec![1u8; 33]];
    assert_eq!(pda_records::address::derive(&too_long, &counter_program()), None);
    assert!(!verify(&user(), &too_long, &counter_program()));
    let too_many: Vec<Vec<u8>> = (0..16u8).map(|i| vec![i]).collect();
    assert_eq!(pda_records::address::derive(&too_many, &counter_program()), None);
    assert!(!matches_derivation(&user(), &None));
    assert!(matches_derivation(&user(), &Some((user(), 255))));
    assert!(!matches_derivation(&user(), &Some((counter_program(), 255))));
}

#[test]
fn records_derive_their_addresses() {
    let counter = Counter::derive().unwrap();
    assert_eq!(Some(counter), pda_records::address::derive(&vec![b"counter".to_vec()], &counter_program()));

    let authority = CounterAuthority::derive(&user()).unwrap();
    let (expected, bump) = solana_address::Address::find_program_address(
        &[b"counter_authority", &[7u8; 32]],
        &solana_address::Address::new_from_array(pda_records::counter::ID),
    );
    assert_eq!(authority.0.to_bytes(), expected.to_bytes());
    assert_eq!(authority.1, bump);

    let meme = Meme::derive().unwrap();
    let (expected, bump) = solana_address::Address::find_program_address(
        &[b"meme"],
        &solana_address::Address::new_from_array(pda_records::close_account::ID),
    );
    assert_eq!(meme.0.to_bytes(), expected.to_bytes());
    assert_eq!(meme.1, bump);

    let mint = derive_mint_pda(&Address::new_from_array(pda_records::basic_mint::ID)).unwrap();
    let (expected, bump) = solana_address::Address::find_program_address(
        &[b"mint"],
        &solana_address::Address::new_from_array(pda_records::basic_mint::ID),
    );
    assert_eq!(mint.0.to_bytes(), expected.to_bytes());
    assert_eq!(mint.1, bump);
}

#[test]
fn addresses_compare_by_their_bytes() {
    let a = Address::new_from_array([1u8; 32]);
    let mut bytes = [1u8; 32];
    assert_eq!(a, Address::new_from_array(bytes));
    bytes[31] = 2;
    assert_ne!(a, Address::new_from_array(bytes));
    assert_eq!(a.as_array(), &[1u8; 32]);
    assert_eq!(a.to_bytes(), [1u8; 32]);
    assert_eq!(pda_records::address::ADDRESS_BYTES, 32);
}
