//! The records that the counter program keeps.

use vstd::prelude::*;
use crate::address::{derivation_view, program_address, seeds_view, Address};
use crate::bytes::{
    array_of, get_array, get_u64_le, lemma_array_of_32, lemma_u64_le_of_bytes,
    lemma_u64_le_round_trip, put_bytes, put_u64_le, u64_le, u64_of_le,
};
use crate::codec::{Codec, Record};
use crate::counter::{id, ID};
use crate::error::ProgramError;

verus! {

/// The shared counter: one per program, at the address derived from
/// `SEED_PREFIX`.
#[derive(Clone, Copy, Debug, PartialEq, Eq, Structural)]
pub struct Counter {
    pub bump: u8,
    pub count: u64,
}

impl Counter {
    /// Bytes of storage that the record takes.
    pub const SPACE: usize = 1 + 8;

    /// The seed of the record's address: the word `counter`.
    pub const SEED_PREFIX: [u8; 7] = [99, 111, 117, 110, 116, 101, 114];

    /// The seeds of the record's address.
    pub open spec fn seeds() -> Seq<Seq<u8>> {
        seq![Self::SEED_PREFIX@]
    }

    /// The seeds of the record's address.
    pub fn seed_list() -> (seeds: Vec<Vec<u8>>)
        ensures
            seeds_view(seeds@) == Self::seeds(),
    {
        let mut prefix: Vec<u8> = Vec::new();
        put_bytes(&mut prefix, Self::SEED_PREFIX.as_slice());
        let seeds = vec![prefix];
        assert(seeds_view(seeds@) =~= Self::seeds());
        seeds
    }

    /// Derives the record's address and bump byte under the counter program.
    pub fn derive() -> (r: Option<(Address, u8)>)
        ensures
            derivation_view(r) == program_address(Self::seeds(), ID@),
    {
        crate::address::derive(&Self::seed_list(), &id())
    }
}

impl Codec for Counter {
    open spec fn encoding(&self) -> Seq<u8> {
        seq![self.bump] + u64_le(self.count)
    }

    open spec fn decoding(bytes: Seq<u8>) -> Result<Self, ProgramError> {
        if bytes.len() == Self::SPACE {
            Ok(Counter { bump: bytes[0], count: u64_of_le(bytes.subrange(1, 9)) })
        } else {
            Err(ProgramError::MalformedRecord)
        }
    }

    fn to_vec(&self) -> (v: Vec<u8>) {
        let mut v: Vec<u8> = Vec::new();
        v.push(self.bump);
        put_u64_le(&mut v, self.count);
        v
    }

    fn try_from_slice(data: &[u8]) -> (r: Result<Self, ProgramError>) {
        if data.len() != Self::SPACE {
            return Err(ProgramError::MalformedRecord);
        }
        Ok(Counter { bump: data[0], count: get_u64_le(data, 1) })
    }

    proof fn lemma_round_trip(&self) {
        lemma_u64_le_round_trip(self.count);
        assert(self.encoding().subrange(1, 9) =~= u64_le(self.count));
    }

    proof fn lemma_canonical(bytes: Seq<u8>) {
        if bytes.len() == Self::SPACE {
            lemma_u64_le_of_bytes(bytes.subrange(1, 9));
            assert(seq![bytes[0]] + bytes.subrange(1, 9) =~= bytes);
        }
    }
}

impl Record for Counter {
    open spec fn space() -> nat {
        Self::SPACE as nat
    }

    proof fn lemma_fills_space(&self) {
    }

    proof fn lemma_decodes_at_space(bytes: Seq<u8>) {
    }
}

/// A counter that only its authority may increase: one per authority, at the
/// address derived from `SEED_PREFIX` and the authority's address.
#[derive(Clone, Copy, Debug, Eq)]
pub struct CounterAuthority {
    pub authority: Address,
    pub bump: u8,
    pub count: u64,
}

impl PartialEq for CounterAuthority {
    fn eq(&self, other: &Self) -> (r: bool) {
        self.authority == other.authority && self.bump == other.bump && self.count == other.count
    }
}

impl vstd::std_specs::cmp::PartialEqSpecImpl for CounterAuthority {
    open spec fn obeys_eq_spec() -> bool {
        true
    }

    open spec fn eq_spec(&self, other: &Self) -> bool {
        self.authority@ == other.authority@ && self.bump == other.bump && self.count
            == other.count
    }
}

impl CounterAuthority {
    /// Bytes of storage that the record takes.
    pub const SPACE: usize = 32 + 1 + 8;

    /// The first seed of the record's address: the word `counter_authority`.
    pub const SEED_PREFIX: [u8; 17] = [
        99, 111, 117, 110, 116, 101, 114, 95, 97, 117, 116, 104, 111, 114, 105, 116, 121,
    ];

    /// The seeds of the address of the record of the authority `user`.
    pub open spec fn seeds(user: Seq<u8>) -> Seq<Seq<u8>> {
        seq![Self::SEED_PREFIX@, user]
    }

    /// The seeds of the address of the record of the authority `user`.
    pub fn seed_list(user: &Address) -> (seeds: Vec<Vec<u8>>)
        ensures
            seeds_view(seeds@) == Self::seeds(user@),
    {
        let mut prefix: Vec<u8> = Vec::new();
        put_bytes(&mut prefix, Self::SEED_PREFIX.as_slice());
        let mut who: Vec<u8> = Vec::new();
        put_bytes(&mut who, user.as_array().as_slice());
        let seeds = vec![prefix, who];
        assert(seeds_view(seeds@) =~= Self::seeds(user@));
        seeds
    }

    /// Derives the address and bump byte of the record of the authority
    /// `user` under the counter program.
    pub fn derive(user: &Address) -> (r: Option<(Address, u8)>)
        ensures
            derivation_view(r) == program_address(Self::seeds(user@), ID@),
    {
        crate::address::derive(&Self::seed_list(user), &id())
    }
}

impl Codec for CounterAuthority {
    open spec fn encoding(&self) -> Seq<u8> {
        self.authority@ + seq![self.bump] + u64_le(self.count)
    }

    open spec fn decoding(bytes: Seq<u8>) -> Result<Self, ProgramError> {
        if bytes.len() == Self::SPACE {
            Ok(
                CounterAuthority {
                    authority: Address { bytes: array_of::<32>(bytes.subrange(0, 32)) },
                    bump: bytes[32],
                    count: u64_of_le(bytes.subrange(33, 41)),
                },
            )
        } else {
            Err(ProgramError::MalformedRecord)
        }
    }

    fn to_vec(&self) -> (v: Vec<u8>) {
        let mut v: Vec<u8> = Vec::new();
        put_bytes(&mut v, self.authority.as_array().as_slice());
        v.push(self.bump);
        put_u64_le(&mut v, self.count);
        v
    }

    fn try_from_slice(data: &[u8]) -> (r: Result<Self, ProgramError>) {
        if data.len() != Self::SPACE {
            return Err(ProgramError::MalformedRecord);
        }
        Ok(
            CounterAuthority {
                authority: Address::new_from_array(get_array::<32>(data, 0)),
                bump: data[32],
                count: get_u64_le(data, 33),
            },
        )
    }

    proof fn lemma_round_trip(&self) {
        lemma_u64_le_round_trip(self.count);
        let bytes = self.encoding();
        assert(bytes.subrange(33, 41) =~= u64_le(self.count));
        assert(bytes.subrange(0, 32) =~= self.authority@);
        crate::bytes::lemma_array_of_view(self.authority.bytes);
    }

    proof fn lemma_canonical(bytes: Seq<u8>) {
        if bytes.len() == Self::SPACE {
            lemma_u64_le_of_bytes(bytes.subrange(33, 41));
            lemma_array_of_32(bytes.subrange(0, 32));
            assert(bytes.subrange(0, 32) + seq![bytes[32]] + bytes.subrange(33, 41) =~= bytes);
        }
    }
}

impl Record for CounterAuthority {
    open spec fn space() -> nat {
        Self::SPACE as nat
    }

    proof fn lemma_fills_space(&self) {
    }

    proof fn lemma_decodes_at_space(bytes: Seq<u8>) {
    }
}

} // verus!
