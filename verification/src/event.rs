//! Bounded encoding of events into printable text.
//!
//! An event is encoded into a scratch buffer of fixed capacity and the bytes
//! written are then turned into base64 text, in a second buffer of fixed
//! capacity. Nothing grows: an encoding that does not fit is refused.

use vstd::prelude::*;
use vstd::slice::slice_subrange;
use crate::bytes::put_bytes;
use crate::codec::Codec;
use crate::error::ProgramError;

verus! {

/// Largest encoded event, in bytes.
pub const MAX_EVENT_SIZE: usize = 256;

/// Length of the text of the largest encoded event.
pub const MAX_BASE64_SIZE: usize = (MAX_EVENT_SIZE + 2) / 3 * 4;

/// A cursor that fills a borrowed buffer from the front and never grows it.
pub struct SliceWriter<'a> {
    pub buf: &'a mut [u8],
    pub pos: usize,
}

impl<'a> SliceWriter<'a> {
    /// The cursor is inside the buffer.
    pub open spec fn wf(&self) -> bool {
        self.pos <= self.buf@.len()
    }

    /// A writer at the start of `buf`. What the writer leaves in its buffer
    /// is what `buf` holds when the writer is gone.
    pub fn new(buf: &'a mut [u8]) -> (w: Self)
        ensures
            w.wf(),
            w.pos == 0,
            w.buf@ == old(buf)@,
            final(w.buf)@ == final(buf)@,
    {
        Self { buf, pos: 0 }
    }

    /// Number of bytes written so far.
    pub fn written(&self) -> (n: usize)
        ensures
            n == self.pos,
    {
        self.pos
    }

    /// Writes all of `data` at the cursor and advances it, or, where `data`
    /// does not fit in what is left of the buffer, writes nothing. Either
    /// way the writer goes on writing to the same buffer.
    pub fn write(&mut self, data: &[u8]) -> (r: Result<usize, ProgramError>)
        requires
            old(self).wf(),
        ensures
            final(self).wf(),
            final(final(self).buf)@ == final(old(self).buf)@,
            final(self).buf@.len() == old(self).buf@.len(),
            match r {
                Ok(n) => {
                    &&& old(self).pos + data@.len() <= old(self).buf@.len()
                    &&& n == data@.len()
                    &&& final(self).pos == old(self).pos + data@.len()
                    &&& final(self).buf@ == old(self).buf@.subrange(0, old(self).pos as int)
                        + data@ + old(self).buf@.subrange(
                        old(self).pos + data@.len(),
                        old(self).buf@.len() as int,
                    )
                },
                Err(e) => {
                    &&& e == ProgramError::EncodingOverflow
                    &&& old(self).pos + data@.len() > old(self).buf@.len()
                    &&& final(self).pos == old(self).pos
                    &&& final(self).buf@ == old(self).buf@
                },
            },
    {
        let len = data.len();
        let cap = self.buf.len();
        if len > cap - self.pos {
            return Err(ProgramError::EncodingOverflow);
        }
        let start = self.pos;
        let ghost before = self.buf@;
        let mut i: usize = 0;
        while i < len
            invariant
                i <= len == data@.len(),
                start + len <= self.buf@.len(),
                self.pos == start,
                self.buf@.len() == before.len() == cap,
                final(self.buf)@ == final(old(self).buf)@,
                forall|j: int| 0 <= j < start ==> self.buf@[j] == before[j],
                forall|j: int| 0 <= j < i ==> self.buf@[start + j] == data@[j],
                forall|j: int| start + i <= j < before.len() ==> self.buf@[j] == before[j],
            decreases len - i,
        {
            self.buf[start + i] = data[i];
            i = i + 1;
        }
        self.pos = start + len;
        assert(self.buf@ =~= before.subrange(0, start as int) + data@ + before.subrange(
            start + len,
            before.len() as int,
        ));
        Ok(len)
    }

    /// Nothing is held back by the writer, so there is nothing to flush.
    pub fn flush(&mut self) -> (r: Result<(), ProgramError>)
        ensures
            r is Ok,
            final(self).pos == old(self).pos,
            final(self).buf@ == old(self).buf@,
            final(final(self).buf)@ == final(old(self).buf)@,
    {
        Ok(())
    }
}

/// Writes the wire bytes of `value` at the writer's cursor, or nothing where
/// they do not fit in what is left of its buffer.
pub fn serialize<E: Codec>(value: &E, writer: &mut SliceWriter) -> (r: Result<(), ProgramError>)
    requires
        old(writer).wf(),
    ensures
        final(writer).wf(),
        final(final(writer).buf)@ == final(old(writer).buf)@,
        final(writer).buf@.len() == old(writer).buf@.len(),
        match r {
            Ok(_) => {
                &&& old(writer).pos + value.encoding().len() <= old(writer).buf@.len()
                &&& final(writer).pos == old(writer).pos + value.encoding().len()
                &&& final(writer).buf@ == old(writer).buf@.subrange(0, old(writer).pos as int)
                    + value.encoding() + old(writer).buf@.subrange(
                    old(writer).pos + value.encoding().len(),
                    old(writer).buf@.len() as int,
                )
            },
            Err(e) => {
                &&& e == ProgramError::EncodingOverflow
                &&& old(writer).pos + value.encoding().len() > old(writer).buf@.len()
                &&& final(writer).pos == old(writer).pos
                &&& final(writer).buf@ == old(writer).buf@
            },
        },
{
    let bytes = value.to_vec();
    match writer.write(bytes.as_slice()) {
        Ok(_) => Ok(()),
        Err(e) => Err(e),
    }
}

/// Length of the padded base64 text of `n` bytes: four characters for every
/// three bytes, the last group padded.
pub open spec fn base64_len(n: int) -> int {
    (n / 3) * 4 + if n % 3 > 0 {
        4int
    } else {
        0int
    }
}

/// What `base64::Engine::encode_slice` writes for `input` on the engine
/// `base64::engine::general_purpose::STANDARD`: the text of `input` in the
/// standard base64 alphabet, with padding. Only its length is claimed.
pub uninterp spec fn base64_standard(input: Seq<u8>) -> Seq<u8>;

/// Declares `base64::EncodeSliceError`, the failure of
/// `base64::Engine::encode_slice`, whose one case is an output buffer that
/// is too small. Nothing is claimed of its values.
#[verifier::external_type_specification]
#[verifier::external_body]
pub struct ExEncodeSliceError(base64::EncodeSliceError);

/// Calls `base64::Engine::encode_slice` on the engine
/// `base64::engine::general_purpose::STANDARD`. That function computes the
/// padded length of the text, fails without writing where `output` is
/// shorter than that, and otherwise writes the text at the front of
/// `output` and returns its length. Inputs whose padded length does not fit
/// a `usize` make it panic and are left out.
#[verifier::external_body]
fn base64_encode_slice(input: &[u8], output: &mut [u8]) -> (r: Result<
    usize,
    base64::EncodeSliceError,
>)
    requires
        base64_len(input@.len() as int) <= usize::MAX,
    ensures
        final(output)@.len() == old(output)@.len(),
        r is Ok <==> base64_len(input@.len() as int) <= old(output)@.len(),
        r matches Ok(n) ==> n == base64_len(input@.len() as int),
        r matches Ok(n) ==> final(output)@.subrange(0, n as int) == base64_standard(input@),
        r matches Ok(n) ==> final(output)@.subrange(n as int, old(output)@.len() as int) == old(
            output,
        )@.subrange(n as int, old(output)@.len() as int),
        r is Err ==> final(output)@ == old(output)@,
{
    base64::Engine::encode_slice(&base64::engine::general_purpose::STANDARD, input, output)
}

/// What emitting an event with the given encoding hands to the log: the
/// base64 text of the encoding, unless the encoding exceeds the event buffer.
pub open spec fn event_text(encoding: Seq<u8>) -> Result<Seq<u8>, ProgramError> {
    if encoding.len() > MAX_EVENT_SIZE {
        Err(ProgramError::EncodingOverflow)
    } else {
        Ok(base64_standard(encoding))
    }
}

/// A text result as plain values.
pub open spec fn text_view(r: Result<Vec<u8>, ProgramError>) -> Result<Seq<u8>, ProgramError> {
    match r {
        Ok(text) => Ok(text@),
        Err(e) => Err(e),
    }
}

/// Turns the wire bytes of an event into text for the log: the bytes are
/// written to the event buffer, which holds `MAX_EVENT_SIZE` of them, and
/// what was written is encoded as base64 into the text buffer.
pub fn encode_text(bytes: &[u8]) -> (r: Result<Vec<u8>, ProgramError>)
    ensures
        text_view(r) == event_text(bytes@),
        r matches Ok(text) ==> text@.len() == base64_len(bytes@.len() as int) && text@.len()
            <= MAX_BASE64_SIZE,
{
    let mut event_buf = [0u8; MAX_EVENT_SIZE];
    let mut writer = SliceWriter::new(&mut event_buf);
    match writer.write(bytes) {
        Ok(_) => {},
        Err(e) => {
            return Err(e);
        },
    }
    let event_len = writer.written();
    assert(event_buf@.subrange(0, event_len as int) =~= bytes@);
    let event_bytes = slice_subrange(event_buf.as_slice(), 0, event_len);

    let mut b64_buf = [0u8; MAX_BASE64_SIZE];
    match base64_encode_slice(event_bytes, &mut b64_buf) {
        Ok(encoded_len) => {
            let mut text: Vec<u8> = Vec::new();
            put_bytes(&mut text, slice_subrange(b64_buf.as_slice(), 0, encoded_len));
            assert(text@ =~= b64_buf@.subrange(0, encoded_len as int));
            Ok(text)
        },
        Err(_) => Err(ProgramError::EncodingOverflow),
    }
}

/// Encodes `event` for the log: its wire bytes, bounded by
/// `MAX_EVENT_SIZE`, as base64 text.
pub fn emit<E: Codec>(event: &E) -> (r: Result<Vec<u8>, ProgramError>)
    ensures
        text_view(r) == event_text(event.encoding()),
        r matches Ok(text) ==> text@.len() == base64_len(event.encoding().len() as int)
            && text@.len() <= MAX_BASE64_SIZE,
{
    let bytes = event.to_vec();
    encode_text(bytes.as_slice())
}

/// The line written to the log for an event with the given text.
pub open spec fn log_line_of(text: Seq<u8>) -> Seq<u8> {
    seq![
        105u8, 110u8, 115u8, 116u8, 114u8, 117u8, 99u8, 116u8, 105u8, 111u8, 110u8, 32u8, 100u8,
        97u8, 116u8, 97u8, 58u8, 32u8,
    ] + text
}

/// The line written to the log for an event with the given text: the words
/// `instruction data: ` and the text.
pub fn log_line(text: &[u8]) -> (line: Vec<u8>)
    ensures
        line@ == log_line_of(text@),
{
    let mut line: Vec<u8> = vec![
        105u8, 110u8, 115u8, 116u8, 114u8, 117u8, 99u8, 116u8, 105u8, 111u8, 110u8, 32u8, 100u8,
        97u8, 116u8, 97u8, 58u8, 32u8,
    ];
    put_bytes(&mut line, text);
    line
}

} // verus!
