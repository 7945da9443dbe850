//! The record that the close-account program keeps.

use vstd::prelude::*;
use crate::address::{derivation_view, program_address, seeds_view, Address};
use crate::bytes::{array_of, get_array, lemma_array_of_32, lemma_array_of_view, put_bytes};
use crate::close_account::{id, ID};
use crate::codec::{Codec, Record};
use crate::error::ProgramError;

verus! {

/// A record that remembers its own address: one per program, at the address
/// derived from `SEED_PREFIX`. It is created, exists, and is closed.
#[derive(Clone, Copy, Debug, Eq)]
pub struct Meme {
    pub address: Address,
    pub bump: u8,
}

impl PartialEq for Meme {
    fn eq(&self, other: &Self) -> (r: bool) {
        self.address == other.address && self.bump == other.bump
    }
}

impl vstd::std_specs::cmp::PartialEqSpecImpl for Meme {
    open spec fn obeys_eq_spec() -> bool {
        true
    }

    open spec fn eq_spec(&self, other: &Self) -> bool {
        self.address@ == other.address@ && self.bump == other.bump
    }
}

impl Meme {
    /// Bytes of storage that the record takes.
    pub const SPACE: usize = 32 + 1;

    /// The seed of the record's address: the word `meme`.
    pub const SEED_PREFIX: [u8; 4] = [109, 101, 109, 101];

    /// The seeds of the record's address.
    pub open spec fn seeds() -> Seq<Seq<u8>> {
        seq![Self::SEED_PREFIX@]
    }

    /// The seeds of the record's address.
    pub fn seed_list() -> (seeds: Vec<Vec<u8>>)
        ensures
            seeds_view(seeds@) == Self::seeds(),
    {
        let mut prefix: Vec<u8> = Vec::new();
        put_bytes(&mut prefix, Self::SEED_PREFIX.as_slice());
        let seeds = vec![prefix];
        assert(seeds_view(seeds@) =~= Self::seeds());
        seeds
    }

    /// Derives the record's address and bump byte under the close-account
    /// program.
    pub fn derive() -> (r: Option<(Address, u8)>)
        ensures
            derivation_view(r) == program_address(Self::seeds(), ID@),
    {
        crate::address::derive(&Self::seed_list(), &id())
    }
}

impl Codec for Meme {
    open spec fn encoding(&self) -> Seq<u8> {
        self.address@ + seq![self.bump]
    }

    open spec fn decoding(bytes: Seq<u8>) -> Result<Self, ProgramError> {
        if bytes.len() == Self::SPACE {
            Ok(
                Meme {
                    address: Address { bytes: array_of::<32>(bytes.subrange(0, 32)) },
                    bump: bytes[32],
                },
            )
        } else {
            Err(ProgramError::MalformedRecord)
        }
    }

    fn to_vec(&self) -> (v: Vec<u8>) {
        let mut v: Vec<u8> = Vec::new();
        put_bytes(&mut v, self.address.as_array().as_slice());
        v.push(self.bump);
        v
    }

    fn try_from_slice(data: &[u8]) -> (r: Result<Self, ProgramError>) {
        if data.len() != Self::SPACE {
            return Err(ProgramError::MalformedRecord);
        }
        Ok(Meme { address: Address::new_from_array(get_array::<32>(data, 0)), bump: data[32] })
    }

    proof fn lemma_round_trip(&self) {
        assert(self.encoding().subrange(0, 32) =~= self.address@);
        lemma_array_of_view(self.address.bytes);
    }

    proof fn lemma_canonical(bytes: Seq<u8>) {
        if bytes.len() == Self::SPACE {
            lemma_array_of_32(bytes.subrange(0, 32));
            assert(bytes.subrange(0, 32) + seq![bytes[32]] =~= bytes);
        }
    }
}

impl Record for Meme {
    open spec fn space() -> nat {
        Self::SPACE as nat
    }

    proof fn lemma_fills_space(&self) {
    }

    proof fn lemma_decodes_at_space(bytes: Seq<u8>) {
    }
}

} // verus!
