//! What the counter program reports of a state change.

use vstd::prelude::*;
use crate::bytes::{
    get_u64_le, lemma_u64_le_of_bytes, lemma_u64_le_round_trip, put_u64_le, u64_le, u64_of_le,
};
use crate::codec::Codec;
use crate::error::ProgramError;

verus! {

/// The shared counter was created with this count.
#[derive(Clone, Copy, Debug, PartialEq, Eq, Structural)]
pub struct CounterInitialized {
    pub count: u64,
}

impl Codec for CounterInitialized {
    open spec fn encoding(&self) -> Seq<u8> {
        u64_le(self.count)
    }

    open spec fn decoding(bytes: Seq<u8>) -> Result<Self, ProgramError> {
        if bytes.len() == 8 {
            Ok(CounterInitialized { count: u64_of_le(bytes) })
        } else {
            Err(ProgramError::MalformedRecord)
        }
    }

    fn to_vec(&self) -> (v: Vec<u8>) {
        let mut v: Vec<u8> = Vec::new();
        put_u64_le(&mut v, self.count);
        v
    }

    fn try_from_slice(data: &[u8]) -> (r: Result<Self, ProgramError>) {
        if data.len() != 8 {
            return Err(ProgramError::MalformedRecord);
        }
        assert(data@.subrange(0, 8) =~= data@);
        Ok(CounterInitialized { count: get_u64_le(data, 0) })
    }

    proof fn lemma_round_trip(&self) {
        lemma_u64_le_round_trip(self.count);
    }

    proof fn lemma_canonical(bytes: Seq<u8>) {
        if bytes.len() == 8 {
            lemma_u64_le_of_bytes(bytes);
        }
    }
}

/// The shared counter was increased to this count.
#[derive(Clone, Copy, Debug, PartialEq, Eq, Structural)]
pub struct CounterIncreased {
    pub new_count: u64,
}

impl Codec for CounterIncreased {
    open spec fn encoding(&self) -> Seq<u8> {
        u64_le(self.new_count)
    }

    open spec fn decoding(bytes: Seq<u8>) -> Result<Self, ProgramError> {
        if bytes.len() == 8 {
            Ok(CounterIncreased { new_count: u64_of_le(bytes) })
        } else {
            Err(ProgramError::MalformedRecord)
        }
    }

    fn to_vec(&self) -> (v: Vec<u8>) {
        let mut v: Vec<u8> = Vec::new();
        put_u64_le(&mut v, self.new_count);
        v
    }

    fn try_from_slice(data: &[u8]) -> (r: Result<Self, ProgramError>) {
        if data.len() != 8 {
            return Err(ProgramError::MalformedRecord);
        }
        assert(data@.subrange(0, 8) =~= data@);
        Ok(CounterIncreased { new_count: get_u64_le(data, 0) })
    }

    proof fn lemma_round_trip(&self) {
        lemma_u64_le_round_trip(self.new_count);
    }

    proof fn lemma_canonical(bytes: Seq<u8>) {
        if bytes.len() == 8 {
            lemma_u64_le_of_bytes(bytes);
        }
    }
}

/// An authority's counter was created with this count.
#[derive(Clone, Copy, Debug, PartialEq, Eq, Structural)]
pub struct CounterAuthorityInitialized {
    pub count: u64,
}

impl Codec for CounterAuthorityInitialized {
    open spec fn encoding(&self) -> Seq<u8> {
        u64_le(self.count)
    }

    open spec fn decoding(bytes: Seq<u8>) -> Result<Self, ProgramError> {
        if bytes.len() == 8 {
            Ok(CounterAuthorityInitialized { count: u64_of_le(bytes) })
        } else {
            Err(ProgramError::MalformedRecord)
        }
    }

    fn to_vec(&self) -> (v: Vec<u8>) {
        let mut v: Vec<u8> = Vec::new();
        put_u64_le(&mut v, self.count);
        v
    }

    fn try_from_slice(data: &[u8]) -> (r: Result<Self, ProgramError>) {
        if data.len() != 8 {
            return Err(ProgramError::MalformedRecord);
        }
        assert(data@.subrange(0, 8) =~= data@);
        Ok(CounterAuthorityInitialized { count: get_u64_le(data, 0) })
    }

    proof fn lemma_round_trip(&self) {
        lemma_u64_le_round_trip(self.count);
    }

    proof fn lemma_canonical(bytes: Seq<u8>) {
        if bytes.len() == 8 {
            lemma_u64_le_of_bytes(bytes);
        }
    }
}

/// An authority's counter was increased to this count.
#[derive(Clone, Copy, Debug, PartialEq, Eq, Structural)]
pub struct CounterAuthorityIncreased {
    pub new_count: u64,
}

impl Codec for CounterAuthorityIncreased {
    open spec fn encoding(&self) -> Seq<u8> {
        u64_le(self.new_count)
    }

    open spec fn decoding(bytes: Seq<u8>) -> Result<Self, ProgramError> {
        if bytes.len() == 8 {
            Ok(CounterAuthorityIncreased { new_count: u64_of_le(bytes) })
        } else {
            Err(ProgramError::MalformedRecord)
        }
    }

    fn to_vec(&self) -> (v: Vec<u8>) {
        let mut v: Vec<u8> = Vec::new();
        put_u64_le(&mut v, self.new_count);
        v
    }

    fn try_from_slice(data: &[u8]) -> (r: Result<Self, ProgramError>) {
        if data.len() != 8 {
            return Err(ProgramError::MalformedRecord);
        }
        assert(data@.subrange(0, 8) =~= data@);
        Ok(CounterAuthorityIncreased { new_count: get_u64_le(data, 0) })
    }

    proof fn lemma_round_trip(&self) {
        lemma_u64_le_round_trip(self.new_count);
    }

    proof fn lemma_canonical(bytes: Seq<u8>) {
        if bytes.len() == 8 {
            lemma_u64_le_of_bytes(bytes);
        }
    }
}

/// A report of the counter program: a one-byte tag, then the report's count.
#[derive(Clone, Copy, Debug, PartialEq, Eq, Structural)]
pub enum CounterEvent {
    CounterInitialized(CounterInitialized),
    CounterIncreased(CounterIncreased),
    CounterAuthorityInitialized(CounterAuthorityInitialized),
    CounterAuthorityIncreased(CounterAuthorityIncreased),
}

impl CounterEvent {
    /// The tag that leads the report on the wire.
    pub open spec fn tag(&self) -> u8 {
        match self {
            CounterEvent::CounterInitialized(_) => 0,
            CounterEvent::CounterIncreased(_) => 1,
            CounterEvent::CounterAuthorityInitialized(_) => 2,
            CounterEvent::CounterAuthorityIncreased(_) => 3,
        }
    }

    /// The count that the report carries.
    pub open spec fn amount(&self) -> u64 {
        match self {
            CounterEvent::CounterInitialized(e) => e.count,
            CounterEvent::CounterIncreased(e) => e.new_count,
            CounterEvent::CounterAuthorityInitialized(e) => e.count,
            CounterEvent::CounterAuthorityIncreased(e) => e.new_count,
        }
    }

    /// The report with the given tag and count.
    pub open spec fn of(tag: u8, amount: u64) -> Self {
        if tag == 0 {
            CounterEvent::CounterInitialized(CounterInitialized { count: amount })
        } else if tag == 1 {
            CounterEvent::CounterIncreased(CounterIncreased { new_count: amount })
        } else if tag == 2 {
            CounterEvent::CounterAuthorityInitialized(
                CounterAuthorityInitialized { count: amount },
            )
        } else {
            CounterEvent::CounterAuthorityIncreased(CounterAuthorityIncreased { new_count: amount })
        }
    }
}

impl Codec for CounterEvent {
    open spec fn encoding(&self) -> Seq<u8> {
        seq![self.tag()] + u64_le(self.amount())
    }

    open spec fn decoding(bytes: Seq<u8>) -> Result<Self, ProgramError> {
        if bytes.len() == 9 && bytes[0] <= 3 {
            Ok(Self::of(bytes[0], u64_of_le(bytes.subrange(1, 9))))
        } else {
            Err(ProgramError::MalformedRecord)
        }
    }

    fn to_vec(&self) -> (v: Vec<u8>) {
        let mut v: Vec<u8> = Vec::new();
        match self {
            CounterEvent::CounterInitialized(e) => {
                v.push(0);
                put_u64_le(&mut v, e.count);
            },
            CounterEvent::CounterIncreased(e) => {
                v.push(1);
                put_u64_le(&mut v, e.new_count);
            },
            CounterEvent::CounterAuthorityInitialized(e) => {
                v.push(2);
                put_u64_le(&mut v, e.count);
            },
            CounterEvent::CounterAuthorityIncreased(e) => {
                v.push(3);
                put_u64_le(&mut v, e.new_count);
            },
        }
        v
    }

    fn try_from_slice(data: &[u8]) -> (r: Result<Self, ProgramError>) {
        if data.len() != 9 {
            return Err(ProgramError::MalformedRecord);
        }
        let amount = get_u64_le(data, 1);
        let tag = data[0];
        if tag == 0 {
            Ok(CounterEvent::CounterInitialized(CounterInitialized { count: amount }))
        } else if tag == 1 {
            Ok(CounterEvent::CounterIncreased(CounterIncreased { new_count: amount }))
        } else if tag == 2 {
            Ok(
                CounterEvent::CounterAuthorityInitialized(
                    CounterAuthorityInitialized { count: amount },
                ),
            )
        } else if tag == 3 {
            Ok(
                CounterEvent::CounterAuthorityIncreased(
                    CounterAuthorityIncreased { new_count: amount },
                ),
            )
        } else {
            Err(ProgramError::MalformedRecord)
        }
    }

    proof fn lemma_round_trip(&self) {
        lemma_u64_le_round_trip(self.amount());
        assert(self.encoding().subrange(1, 9) =~= u64_le(self.amount()));
    }

    proof fn lemma_canonical(bytes: Seq<u8>) {
        if bytes.len() == 9 && bytes[0] <= 3 {
            lemma_u64_le_of_bytes(bytes.subrange(1, 9));
            assert(seq![bytes[0]] + bytes.subrange(1, 9) =~= bytes);
        }
    }
}

} // verus!
