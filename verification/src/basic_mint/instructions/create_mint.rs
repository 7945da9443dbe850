//! Creation of a mint that carries its own metadata.

use vstd::prelude::*;
use crate::account::{
    require_address, require_program, require_signer, require_uninitialized, states, Account,
    AccountState, SYSTEM_PROGRAM_ID,
};
use crate::address::{derivation_view, is_derived, program_address, seeds_view, Address};
use crate::basic_mint::{ID, TOKEN_2022_PROGRAM_ID};
use crate::bytes::{
    array_of, get_array, lemma_array_of_32, lemma_array_of_64, lemma_array_of_8,
    lemma_array_of_view, put_bytes, put_u32_le, u32_le,
};
use crate::codec::Codec;
use crate::effect::{
    outcome, AccountMeta, CreateAccount, CreateAccountView, InitializeMint, Instruction,
    InstructionView, MintPlan, MintPlanView,
};
use crate::error::ProgramError;
use vstd::slice::slice_subrange;

verus! {

/// Bytes of a mint without extensions.
pub const MINT_SIZE: usize = 82;

/// Bytes of the account-type marker that precedes the extensions.
pub const ACCOUNT_TYPE_SIZE: usize = 1;

/// Bytes of the type that leads each extension.
pub const EXTENSION_TYPE_SIZE: usize = 2;

/// Bytes of the length that follows the type of each extension.
pub const LENGTH_SIZE: usize = 2;

/// Bytes of the metadata pointer: an authority and an address.
pub const METADATA_POINTER_SIZE: usize = 64;

/// Bytes that every instruction payload built here can hold.
pub const MAX_INSTRUCTION_SIZE: usize = 256;

/// The tag of the metadata-pointer extension and of its initialisation.
pub const METADATA_POINTER_INIT_DISCRIMINATOR: [u8; 2] = [39, 0];

/// The tag of the initialisation of token metadata.
pub const TOKEN_METADATA_INIT_DISCRIMINATOR: [u8; 8] = [210, 225, 30, 162, 88, 184, 77, 141];

/// The seed of the mint's address: the word `mint`.
pub const MINT_SEED_PREFIX: [u8; 4] = [109, 105, 110, 116];

/// The payload of the instruction: the mint's decimals and its name, symbol
/// and address of further details, each in a field of fixed width that ends
/// at the first zero byte.
#[derive(Clone, Copy, Debug, Eq)]
pub struct CreateMintArgs {
    /// Token decimals
    pub decimals: u8,
    /// Token name
    pub name: [u8; 32],
    /// Token symbol
    pub symbol: [u8; 8],
    /// Token URI
    pub uri: [u8; 64],
}

impl PartialEq for CreateMintArgs {
    fn eq(&self, other: &Self) -> (r: bool) {
        self.decimals == other.decimals && crate::bytes::same_bytes(
            self.name.as_slice(),
            other.name.as_slice(),
        ) && crate::bytes::same_bytes(self.symbol.as_slice(), other.symbol.as_slice())
            && crate::bytes::same_bytes(self.uri.as_slice(), other.uri.as_slice())
    }
}

impl vstd::std_specs::cmp::PartialEqSpecImpl for CreateMintArgs {
    open spec fn obeys_eq_spec() -> bool {
        true
    }

    open spec fn eq_spec(&self, other: &Self) -> bool {
        self.decimals == other.decimals && self.name@ == other.name@ && self.symbol@
            == other.symbol@ && self.uri@ == other.uri@
    }
}

impl Codec for CreateMintArgs {
    open spec fn encoding(&self) -> Seq<u8> {
        seq![self.decimals] + self.name@ + self.symbol@ + self.uri@
    }

    open spec fn decoding(bytes: Seq<u8>) -> Result<Self, ProgramError> {
        if bytes.len() == 105 {
            Ok(
                CreateMintArgs {
                    decimals: bytes[0],
                    name: array_of::<32>(bytes.subrange(1, 33)),
                    symbol: array_of::<8>(bytes.subrange(33, 41)),
                    uri: array_of::<64>(bytes.subrange(41, 105)),
                },
            )
        } else {
            Err(ProgramError::MalformedRecord)
        }
    }

    fn to_vec(&self) -> (v: Vec<u8>) {
        let mut v: Vec<u8> = Vec::new();
        v.push(self.decimals);
        put_bytes(&mut v, self.name.as_slice());
        put_bytes(&mut v, self.symbol.as_slice());
        put_bytes(&mut v, self.uri.as_slice());
        v
    }

    fn try_from_slice(data: &[u8]) -> (r: Result<Self, ProgramError>) {
        if data.len() != 105 {
            return Err(ProgramError::MalformedRecord);
        }
        Ok(
            CreateMintArgs {
                decimals: data[0],
                name: get_array::<32>(data, 1),
                symbol: get_array::<8>(data, 33),
                uri: get_array::<64>(data, 41),
            },
        )
    }

    proof fn lemma_round_trip(&self) {
        let bytes = self.encoding();
        assert(bytes.subrange(1, 33) =~= self.name@);
        assert(bytes.subrange(33, 41) =~= self.symbol@);
        assert(bytes.subrange(41, 105) =~= self.uri@);
        lemma_array_of_view(self.name);
        lemma_array_of_view(self.symbol);
        lemma_array_of_view(self.uri);
    }

    proof fn lemma_canonical(bytes: Seq<u8>) {
        if bytes.len() == 105 {
            lemma_array_of_32(bytes.subrange(1, 33));
            lemma_array_of_8(bytes.subrange(33, 41));
            lemma_array_of_64(bytes.subrange(41, 105));
            assert(seq![bytes[0]] + bytes.subrange(1, 33) + bytes.subrange(33, 41)
                + bytes.subrange(41, 105) =~= bytes);
        }
    }
}

/// Bytes of a mint that carries a metadata pointer and metadata whose name,
/// symbol and address of further details have the given lengths.
pub open spec fn mint_space(name_len: int, symbol_len: int, uri_len: int) -> int {
    MINT_SIZE + ACCOUNT_TYPE_SIZE + (EXTENSION_TYPE_SIZE + LENGTH_SIZE + METADATA_POINTER_SIZE)
        + (EXTENSION_TYPE_SIZE + LENGTH_SIZE + (32 + 32 + 4 + name_len + 4 + symbol_len + 4
        + uri_len + 4))
}

/// Calculates the bytes that a mint with a metadata pointer and token
/// metadata takes: the mint, the account-type marker, and the two
/// extensions, each with its type and length.
pub fn calculate_mint_space(name_len: usize, symbol_len: usize, uri_len: usize) -> (size: usize)
    requires
        mint_space(name_len as int, symbol_len as int, uri_len as int) <= usize::MAX,
    ensures
        size == mint_space(name_len as int, symbol_len as int, uri_len as int),
        size == 235 + name_len + symbol_len + uri_len,
{
    // Base mint size
    let mut size = MINT_SIZE;

    // Account type byte (required for extensions)
    size += ACCOUNT_TYPE_SIZE;

    // Metadata pointer extension (type + length + value)
    size += EXTENSION_TYPE_SIZE + LENGTH_SIZE + METADATA_POINTER_SIZE;

    // Token metadata extension (type + length + value): update authority,
    // mint, three length-prefixed strings, and an empty list.
    let metadata_value_size = 32 + 32 + 4 + name_len + 4 + symbol_len + 4 + uri_len + 4;
    size += EXTENSION_TYPE_SIZE + LENGTH_SIZE + metadata_value_size;

    size
}

/// Length of the text held in a field of fixed width: the number of bytes
/// before the first zero byte, or the whole width where there is none.
pub open spec fn string_len(bytes: Seq<u8>) -> nat
    decreases bytes.len(),
{
    if bytes.len() == 0 || bytes[0] == 0 {
        0
    } else {
        1 + string_len(bytes.drop_first())
    }
}

/// The length of a text is the one place that no zero byte precedes and
/// that is the end of the field or holds a zero byte.
pub proof fn lemma_string_len(bytes: Seq<u8>, n: int)
    requires
        0 <= n <= bytes.len(),
        forall|j: int| 0 <= j < n ==> bytes[j] != 0,
        n == bytes.len() || bytes[n] == 0,
    ensures
        string_len(bytes) == n,
    decreases n,
{
    if n > 0 {
        let rest = bytes.drop_first();
        assert forall|j: int| 0 <= j < n - 1 implies rest[j] != 0 by {
            assert(rest[j] == bytes[j + 1]);
        }
        lemma_string_len(rest, n - 1);
    }
}

/// Gets the length of the text held in a field of fixed width: up to the
/// first zero byte or the end.
pub fn get_string_len(bytes: &[u8]) -> (n: usize)
    ensures
        n == string_len(bytes@),
        n <= bytes@.len(),
        forall|j: int| 0 <= j < n ==> bytes@[j] != 0,
        n < bytes@.len() ==> bytes@[n as int] == 0,
{
    let mut i: usize = 0;
    while i < bytes.len() && bytes[i] != 0
        invariant
            i <= bytes@.len(),
            forall|j: int| 0 <= j < i ==> bytes@[j] != 0,
        decreases bytes@.len() - i,
    {
        i = i + 1;
    }
    proof {
        lemma_string_len(bytes@, i as int);
    }
    i
}

/// The seeds of the mint's address.
pub open spec fn mint_seeds() -> Seq<Seq<u8>> {
    seq![MINT_SEED_PREFIX@]
}

/// Derives the mint's address and bump byte under the program `program_id`.
pub fn derive_mint_pda(program_id: &Address) -> (r: Option<(Address, u8)>)
    ensures
        derivation_view(r) == program_address(mint_seeds(), program_id@),
{
    let mut prefix: Vec<u8> = Vec::new();
    put_bytes(&mut prefix, MINT_SEED_PREFIX.as_slice());
    let seeds = vec![prefix];
    assert(seeds_view(seeds@) =~= mint_seeds());
    crate::address::derive(&seeds, program_id)
}

/// The instruction that points the mint at the address of its metadata:
/// the two-byte tag, the authority and the metadata address, 66 bytes in
/// all, for the one account `mint`, which is changed.
pub open spec fn metadata_pointer_instruction(
    mint: Address,
    authority: Address,
    metadata_address: Address,
    token_program: Address,
) -> InstructionView {
    InstructionView {
        program_id: token_program,
        accounts: seq![AccountMeta { address: mint, is_writable: true, is_signer: false }],
        data: METADATA_POINTER_INIT_DISCRIMINATOR@ + authority@ + metadata_address@,
    }
}

/// Builds the instruction that initialises the metadata pointer of the mint.
pub fn initialize_metadata_pointer(
    mint: &Address,
    authority: &Address,
    metadata_address: &Address,
    token_program: &Address,
) -> (instruction: Instruction)
    ensures
        instruction@ == metadata_pointer_instruction(
            *mint,
            *authority,
            *metadata_address,
            *token_program,
        ),
        instruction@.data.len() == 66,
{
    let mut instruction_data: Vec<u8> = Vec::new();
    put_bytes(&mut instruction_data, METADATA_POINTER_INIT_DISCRIMINATOR.as_slice());
    put_bytes(&mut instruction_data, authority.as_array().as_slice());
    put_bytes(&mut instruction_data, metadata_address.as_array().as_slice());

    let accounts = vec![AccountMeta::writable(mint)];
    assert(accounts@ =~= seq![AccountMeta { address: *mint, is_writable: true, is_signer: false }]);
    assert(instruction_data@ =~= METADATA_POINTER_INIT_DISCRIMINATOR@ + authority@
        + metadata_address@);

    Instruction { program_id: *token_program, accounts, data: instruction_data }
}

/// The payload that initialises token metadata: the eight-byte tag, then
/// name, symbol and address of further details, each led by its length as a
/// 32-bit little-endian integer.
pub open spec fn token_metadata_data(name: Seq<u8>, symbol: Seq<u8>, uri: Seq<u8>) -> Seq<u8> {
    TOKEN_METADATA_INIT_DISCRIMINATOR@ + u32_le(name.len() as u32) + name + u32_le(
        symbol.len() as u32,
    ) + symbol + u32_le(uri.len() as u32) + uri
}

/// The instruction that initialises token metadata, or `EncodingOverflow`
/// where its payload would pass `MAX_INSTRUCTION_SIZE` bytes. Its accounts
/// are the mint, which is changed; the update authority; the mint again;
/// and the mint authority, which signs.
pub open spec fn token_metadata_instruction(
    mint: Address,
    update_authority: Address,
    mint_address: Address,
    mint_authority: Address,
    name: Seq<u8>,
    symbol: Seq<u8>,
    uri: Seq<u8>,
    token_program: Address,
) -> Result<InstructionView, ProgramError> {
    if 8 + 4 + name.len() + 4 + symbol.len() + 4 + uri.len() > MAX_INSTRUCTION_SIZE {
        Err(ProgramError::EncodingOverflow)
    } else {
        Ok(
            InstructionView {
                program_id: token_program,
                accounts: seq![
                    AccountMeta { address: mint, is_writable: true, is_signer: false },
                    AccountMeta { address: update_authority, is_writable: false, is_signer: false },
                    AccountMeta { address: mint_address, is_writable: false, is_signer: false },
                    AccountMeta { address: mint_authority, is_writable: false, is_signer: true },
                ],
                data: token_metadata_data(name, symbol, uri),
            },
        )
    }
}

/// Builds the instruction that initialises token metadata on the mint.
pub fn initialize_token_metadata(
    mint: &Address,
    update_authority: &Address,
    mint_address: &Address,
    mint_authority: &Address,
    name: &[u8],
    symbol: &[u8],
    uri: &[u8],
    token_program: &Address,
) -> (r: Result<Instruction, ProgramError>)
    ensures
        outcome(r) == token_metadata_instruction(
            *mint,
            *update_authority,
            *mint_address,
            *mint_authority,
            name@,
            symbol@,
            uri@,
            *token_program,
        ),
{
    // tag, then three strings, each with a four-byte length
    if name.len() > MAX_INSTRUCTION_SIZE || symbol.len() > MAX_INSTRUCTION_SIZE || uri.len()
        > MAX_INSTRUCTION_SIZE {
        return Err(ProgramError::EncodingOverflow);
    }
    let data_len = 8 + 4 + name.len() + 4 + symbol.len() + 4 + uri.len();
    if data_len > MAX_INSTRUCTION_SIZE {
        return Err(ProgramError::EncodingOverflow);
    }
    let mut instruction_data: Vec<u8> = Vec::new();

    // Discriminator
    put_bytes(&mut instruction_data, TOKEN_METADATA_INIT_DISCRIMINATOR.as_slice());

    // Name (u32 length + bytes)
    put_u32_le(&mut instruction_data, name.len() as u32);
    put_bytes(&mut instruction_data, name);

    // Symbol (u32 length + bytes)
    put_u32_le(&mut instruction_data, symbol.len() as u32);
    put_bytes(&mut instruction_data, symbol);

    // URI (u32 length + bytes)
    put_u32_le(&mut instruction_data, uri.len() as u32);
    put_bytes(&mut instruction_data, uri);

    let accounts = vec![
        AccountMeta::writable(mint),
        AccountMeta::readonly(update_authority),
        AccountMeta::readonly(mint_address),
        AccountMeta::readonly_signer(mint_authority),
    ];

    Ok(Instruction { program_id: *token_program, accounts, data: instruction_data })
}

/// What the checks made before creating the mint give on accounts
/// `[payer, mint, token program, system program]` and the derivation
/// `derived` of the mint's address: the bump byte of the derivation, or the
/// first failure.
pub open spec fn mint_creation_checks(
    accounts: Seq<AccountState>,
    derived: Option<(Seq<u8>, u8)>,
) -> Result<u8, ProgramError> {
    if accounts.len() != 4 {
        Err(ProgramError::NotEnoughAccounts)
    } else if !accounts[0].is_signer {
        Err(ProgramError::MissingSignature)
    } else if accounts[2].address@ != TOKEN_2022_PROGRAM_ID@ {
        Err(ProgramError::IncorrectProgramId)
    } else if accounts[3].address@ != SYSTEM_PROGRAM_ID@ {
        Err(ProgramError::IncorrectProgramId)
    } else if !is_derived(accounts[1].address@, derived) {
        Err(ProgramError::AddressMismatch)
    } else if !accounts[1].unused() {
        Err(ProgramError::AlreadyInitialized)
    } else {
        Ok(derived->Some_0.1)
    }
}

/// What creating the mint comes to: the first failed check, or the four
/// requests that create the mint's storage for the token program, point the
/// mint at itself for its metadata, initialise it with the payer as mint
/// and freeze authority, and write its name, symbol and address of further
/// details, each cut at its first zero byte.
pub open spec fn create_mint_plan(
    accounts: Seq<AccountState>,
    args: CreateMintArgs,
    derived: Option<(Seq<u8>, u8)>,
) -> Result<MintPlanView, ProgramError> {
    match mint_creation_checks(accounts, derived) {
        Err(e) => Err(e),
        Ok(bump) => {
            let payer = accounts[0].address;
            let mint = accounts[1].address;
            let token_program = accounts[2].address;
            let name = args.name@.subrange(0, string_len(args.name@) as int);
            let symbol = args.symbol@.subrange(0, string_len(args.symbol@) as int);
            let uri = args.uri@.subrange(0, string_len(args.uri@) as int);
            Ok(
                MintPlanView {
                    create: CreateAccountView {
                        payer,
                        target: mint,
                        space: mint_space(
                            name.len() as int,
                            symbol.len() as int,
                            uri.len() as int,
                        ) as usize,
                        owner: token_program,
                        signer_seeds: seq![MINT_SEED_PREFIX@, seq![bump]],
                        record: Seq::empty(),
                    },
                    metadata_pointer: metadata_pointer_instruction(
                        mint,
                        payer,
                        mint,
                        token_program,
                    ),
                    initialize_mint: InitializeMint {
                        mint,
                        decimals: args.decimals,
                        mint_authority: payer,
                        freeze_authority: Some(payer),
                        token_program,
                    },
                    token_metadata: InstructionView {
                        program_id: token_program,
                        accounts: seq![
                            AccountMeta { address: mint, is_writable: true, is_signer: false },
                            AccountMeta { address: payer, is_writable: false, is_signer: false },
                            AccountMeta { address: mint, is_writable: false, is_signer: false },
                            AccountMeta { address: payer, is_writable: false, is_signer: true },
                        ],
                        data: token_metadata_data(name, symbol, uri),
                    },
                },
            )
        },
    }
}

/// Handles the creation of the mint, given the derivation of the mint's
/// address.
pub fn create_mint_with(
    _program_id: &Address,
    accounts: &[Account],
    args: CreateMintArgs,
    derived: &Option<(Address, u8)>,
) -> (r: Result<MintPlan, ProgramError>)
    ensures
        outcome(r) == create_mint_plan(states(accounts@), args, derivation_view(*derived)),
{
    if accounts.len() != 4 {
        return Err(ProgramError::NotEnoughAccounts);
    }
    let payer = &accounts[0];
    let mint = &accounts[1];
    let token_program = &accounts[2];
    let system_program = &accounts[3];

    // Validate payer is signer
    if let Err(e) = require_signer(payer) {
        return Err(e);
    }
    // Validate token program
    let token_2022 = Address::new_from_array(TOKEN_2022_PROGRAM_ID);
    if let Err(e) = require_program(token_program, &token_2022) {
        return Err(e);
    }
    // Validate system program
    if let Err(e) = require_program(system_program, &Address::new_from_array(SYSTEM_PROGRAM_ID)) {
        return Err(e);
    }
    // The mint lives at the derived address
    if let Err(e) = require_address(mint, derived) {
        return Err(e);
    }
    // Check if mint already exists
    if let Err(e) = require_uninitialized(mint) {
        return Err(e);
    }
    let bump = match derived {
        Some(found) => found.1,
        None => {
            return Err(ProgramError::AddressMismatch);
        },
    };

    // Calculate string lengths
    let name_len = get_string_len(args.name.as_slice());
    let symbol_len = get_string_len(args.symbol.as_slice());
    let uri_len = get_string_len(args.uri.as_slice());

    // Calculate space needed
    let account_span = calculate_mint_space(name_len, symbol_len, uri_len);

    // Create signer seeds
    let mut prefix: Vec<u8> = Vec::new();
    put_bytes(&mut prefix, MINT_SEED_PREFIX.as_slice());
    let signer_seeds = vec![prefix, vec![bump]];
    assert(seeds_view(signer_seeds@) =~~= seq![MINT_SEED_PREFIX@, seq![bump]]);

    // Create the mint account
    let create = CreateAccount {
        payer: payer.address,
        target: mint.address,
        space: account_span,
        owner: token_program.address,
        signer_seeds,
        record: Vec::new(),
    };

    // Initialize metadata pointer extension: before the mint itself
    let metadata_pointer = initialize_metadata_pointer(
        &mint.address,
        &payer.address,
        &mint.address,
        &token_program.address,
    );

    // Initialize the mint
    let initialize_mint = InitializeMint {
        mint: mint.address,
        decimals: args.decimals,
        mint_authority: payer.address,
        freeze_authority: Some(payer.address),
        token_program: token_program.address,
    };

    // Initialize token metadata
    let token_metadata = match initialize_token_metadata(
        &mint.address,
        &payer.address,
        &mint.address,
        &payer.address,
        slice_subrange(args.name.as_slice(), 0, name_len),
        slice_subrange(args.symbol.as_slice(), 0, symbol_len),
        slice_subrange(args.uri.as_slice(), 0, uri_len),
        &token_program.address,
    ) {
        Ok(instruction) => instruction,
        Err(e) => {
            return Err(e);
        },
    };

    Ok(MintPlan { create, metadata_pointer, initialize_mint, token_metadata })
}

/// Handles the creation of the mint: derives the mint's address under the
/// mint program and checks the accounts against it.
pub fn create_mint(
    _program_id: &Address,
    accounts: &[Account],
    args: CreateMintArgs,
) -> (r: Result<MintPlan, ProgramError>)
    ensures
        outcome(r) == create_mint_plan(
            states(accounts@),
            args,
            program_address(mint_seeds(), ID@),
        ),
{
    let derived = derive_mint_pda(&Address::new_from_array(ID));
    create_mint_with(_program_id, accounts, args, &derived)
}

} // verus!
