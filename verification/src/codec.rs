//! Values with one fixed wire layout.
//!
//! Integers are little-endian and of fixed width, byte arrays are copied
//! verbatim, fields follow one another in declared order without padding or
//! length prefix, and a tagged value starts with its one-byte tag.

use vstd::prelude::*;
use crate::error::ProgramError;

verus! {

/// A value that is written to and read from bytes in one fixed layout.
pub trait Codec: Sized {
    /// The bytes of the value on the wire.
    spec fn encoding(&self) -> Seq<u8>;

    /// The value that `bytes` hold, or why they hold none.
    spec fn decoding(bytes: Seq<u8>) -> Result<Self, ProgramError>;

    /// Encodes the value.
    fn to_vec(&self) -> (v: Vec<u8>)
        ensures
            v@ == self.encoding(),
    ;

    /// Decodes a value from exactly the bytes of `data`: a buffer that is
    /// shorter or longer than the layout is refused.
    fn try_from_slice(data: &[u8]) -> (r: Result<Self, ProgramError>)
        ensures
            r == Self::decoding(data@),
    ;

    /// Decoding the bytes of a value gives the value back.
    proof fn lemma_round_trip(&self)
        ensures
            Self::decoding(self.encoding()) == Ok::<Self, ProgramError>(*self),
    ;

    /// Bytes decode to at most one value, and only to the value they are the
    /// encoding of: no byte is ignored and none is missing.
    proof fn lemma_canonical(bytes: Seq<u8>)
        ensures
            Self::decoding(bytes) matches Ok(value) ==> value.encoding() == bytes,
    ;
}

/// A value that is kept in storage of a fixed size.
pub trait Record: Codec {
    /// Bytes of storage that a record of this kind takes.
    spec fn space() -> nat;

    /// A record's encoding fills its storage exactly.
    proof fn lemma_fills_space(&self)
        ensures
            self.encoding().len() == Self::space(),
    ;

    /// Storage of the record's size always decodes, and storage of any other
    /// size never does: shorter or longer buffers are `MalformedRecord`.
    proof fn lemma_decodes_at_space(bytes: Seq<u8>)
        ensures
            bytes.len() == Self::space() ==> Self::decoding(bytes) is Ok,
            bytes.len() != Self::space() ==> Self::decoding(bytes) == Err::<Self, ProgramError>(
                ProgramError::MalformedRecord,
            ),
    ;
}

} // verus!
