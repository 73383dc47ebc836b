//! Normalization of the decoder's control signals.
//!
//! The per-packet decode step distinguishes "a frame is ready" from "the
//! decoder needs more input", and the read/decode path signals end of stream
//! in two equivalent shapes — a numeric sentinel (or any non-negative code)
//! and a textual "end of file" message — both of which must be recognized as
//! the same logical condition. Everything else is a fatal error carrying its
//! numeric code.

use vstd::prelude::*;

use crate::config::PipelineError;

verus! {

/// Outcome of one per-packet decode step: either a decoded frame is ready
/// for conversion, or the decoder consumed the packet but needs more input
/// before it can emit a frame.
#[derive(Clone, Copy, Debug, Eq, PartialEq, Ord, PartialOrd, Hash, Structural)]
pub enum DecoderState {
    /// Data is ready to be converted.
    Ready,
    /// The decoder is still waiting on enough data to extract some samples.
    NotReady,
}

/// How a decode or read failure terminates the pipeline: as clean end of
/// stream (normal termination, not a failure), or as a fatal decode error
/// carrying the underlying numeric code.
#[derive(Clone, Copy, Debug, PartialEq, Eq, Structural)]
pub enum TerminationClass {
    EndOfStream,
    Fatal(PipelineError),
}

/// What interpreting a frame pull returns, as a function of the raw code
/// alone: the need-more-input code is a control signal, every other code is
/// handed back to the caller for end-of-stream classification.
pub open spec fn spec_interpret_receive(err: Option<i32>, need_more_input: i32) -> Result<
    DecoderState,
    i32,
> {
    match err {
        None => Ok(DecoderState::Ready),
        Some(code) => if code == need_more_input {
            Ok(DecoderState::NotReady)
        } else {
            Err(code)
        },
    }
}

/// Interpret the outcome of pulling one decoded frame. `err` is `None` when
/// a frame was produced, otherwise the raw error code; `need_more_input` is
/// the platform's code for "give the decoder more data", which is not an
/// error and must not propagate as one.
pub fn interpret_receive(err: Option<i32>, need_more_input: i32) -> (r: Result<DecoderState, i32>)
    ensures
        r == spec_interpret_receive(err, need_more_input),
        (r == Ok::<DecoderState, i32>(DecoderState::NotReady)) <==> (err == Some(need_more_input)),
        (r == Ok::<DecoderState, i32>(DecoderState::Ready)) <==> (err is None),
{
    match err {
        None => Ok(DecoderState::Ready),
        Some(code) => if code == need_more_input {
            Ok(DecoderState::NotReady)
        } else {
            Err(code)
        },
    }
}

/// Lower-case image of one byte, folding only the ASCII letters.
pub open spec fn spec_ascii_lower(b: u8) -> u8 {
    if 65 <= b <= 90 {
        (b + 32) as u8
    } else {
        b
    }
}

/// A byte sequence folded to ASCII lower case.
pub open spec fn lower_bytes(s: Seq<u8>) -> Seq<u8> {
    Seq::new(s.len(), |i: int| spec_ascii_lower(s[i]))
}

/// The bytes of the textual end-of-stream shape, "end of file".
pub open spec fn end_of_file_text() -> Seq<u8> {
    seq![101u8, 110u8, 100u8, 32u8, 111u8, 102u8, 32u8, 102u8, 105u8, 108u8, 101u8]
}

/// Fold one byte to ASCII lower case.
fn ascii_lower(b: u8) -> (r: u8)
    ensures
        r == spec_ascii_lower(b),
{
    if 65 <= b && b <= 90 {
        b + 32
    } else {
        b
    }
}

/// The byte of the textual end-of-stream shape at index `i`.
fn end_of_file_byte(i: usize) -> (r: u8)
    requires
        i < 11,
    ensures
        r == end_of_file_text()[i as int],
{
    match i {
        0 => 101,
        1 => 110,
        2 => 100,
        3 => 32,
        4 => 111,
        5 => 102,
        6 => 32,
        7 => 102,
        8 => 105,
        9 => 108,
        _ => 101,
    }
}

/// Whether a message, compared case-insensitively over ASCII, reads
/// "end of file" — the textual end-of-stream shape.
pub fn is_end_of_file_text(message: &[u8]) -> (r: bool)
    ensures
        r == (lower_bytes(message@) == end_of_file_text()),
{
    if message.len() != 11 {
        assert(lower_bytes(message@).len() != end_of_file_text().len());
        return false;
    }
    let mut i: usize = 0;
    while i < 11
        invariant
            i <= 11,
            message@.len() == 11,
            forall|j: int| 0 <= j < i ==> lower_bytes(message@)[j] == end_of_file_text()[j],
        decreases 11 - i,
    {
        if ascii_lower(message[i]) != end_of_file_byte(i) {
            assert(lower_bytes(message@)[i as int] != end_of_file_text()[i as int]);
            return false;
        }
        i += 1;
    }
    assert(lower_bytes(message@) =~= end_of_file_text());
    true
}

/// Whether a raw code is an end-of-stream code: the sentinel handed in by the
/// caller, or any non-negative code — only negative codes are real errors.
pub open spec fn is_end_of_stream_code(raw: i32, eof_sentinel: i32) -> bool {
    raw == eof_sentinel || raw >= 0
}

/// Whether a failure is, in either of its two equivalent shapes, the
/// end-of-stream condition: an end-of-stream code, or the textual
/// "end of file" message.
pub open spec fn is_end_of_stream_signal(raw: i32, message: Seq<u8>, eof_sentinel: i32) -> bool {
    is_end_of_stream_code(raw, eof_sentinel) || lower_bytes(message) == end_of_file_text()
}

/// What `classify_stream_error` returns, as a function of its inputs alone.
pub open spec fn spec_classify_stream_error(
    raw: i32,
    message: Seq<u8>,
    eof_sentinel: i32,
) -> TerminationClass {
    if is_end_of_stream_signal(raw, message, eof_sentinel) {
        TerminationClass::EndOfStream
    } else {
        TerminationClass::Fatal(PipelineError::FatalDecode(raw))
    }
}

/// Normalize a read/decode failure at the boundary: both end-of-stream
/// shapes become one `EndOfStream` value and terminate the pull loop
/// normally; anything else is fatal and carries its raw code out.
pub fn classify_stream_error(raw: i32, message: &[u8], eof_sentinel: i32) -> (r: TerminationClass)
    ensures
        r == spec_classify_stream_error(raw, message@, eof_sentinel),
        (r == TerminationClass::EndOfStream) <==> is_end_of_stream_signal(
            raw,
            message@,
            eof_sentinel,
        ),
{
    if raw == eof_sentinel || raw >= 0 {
        TerminationClass::EndOfStream
    } else if is_end_of_file_text(message) {
        TerminationClass::EndOfStream
    } else {
        TerminationClass::Fatal(PipelineError::FatalDecode(raw))
    }
}

/// Law: either end-of-stream shape — the numeric one (the sentinel or any
/// non-negative code) and the textual one — is classified as end of stream,
/// never as a fatal error; and a negative non-sentinel code with any other
/// message is fatal and keeps its code.
pub proof fn lemma_both_eof_shapes_terminate(raw: i32, message: Seq<u8>, eof_sentinel: i32)
    ensures
        raw == eof_sentinel ==> spec_classify_stream_error(raw, message, eof_sentinel)
            == TerminationClass::EndOfStream,
        raw >= 0 ==> spec_classify_stream_error(raw, message, eof_sentinel)
            == TerminationClass::EndOfStream,
        lower_bytes(message) == end_of_file_text() ==> spec_classify_stream_error(
            raw,
            message,
            eof_sentinel,
        ) == TerminationClass::EndOfStream,
        !is_end_of_stream_signal(raw, message, eof_sentinel) ==> spec_classify_stream_error(
            raw,
            message,
            eof_sentinel,
        ) == TerminationClass::Fatal(PipelineError::FatalDecode(raw)),
{
}

} // verus!
