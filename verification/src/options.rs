//! Socket options: their identities, the shape of value each one takes, and
//! the conversion between typed values and the bytes that cross to the engine.

use crate::byte_order::{
    decode_i32, encode_i32, i32_bytes, i32_of_bytes, lemma_i32_bytes_round_trip, ByteOrder,
};
use crate::errors::{result_view, string_from_utf8, SrtError, SrtErrorView};
use vstd::prelude::*;
use vstd::string::*;
use vstd::utf8::{decode_utf8, encode_utf8, valid_utf8};

verus! {

/// The size of the scratch buffer that an option is read into: enough for the
/// longest string option.
pub const OPTION_BUFFER_SIZE: usize = 512;

/// [`OPTION_BUFFER_SIZE`] as the count that the engine is told.
pub const OPTION_BUFFER_LENGTH: i32 = 512;

/// The identity of a configurable socket parameter.
#[derive(Debug, Clone, Copy, PartialEq, Eq, Structural)]
pub enum SrtSocketOptions {
    /// Whether receiving blocks.
    SrtOptRCVSYN,
    /// Whether the local address may be reused.
    SrtOptReuseAddr,
    /// The overall latency.
    SrtOptLatency,
    /// The latency on the receiving side.
    SrtOptRCVLatency,
    /// The latency that the peer is asked for.
    SrtOptPeerLatency,
    /// The stream identifier.
    SrtOptStreamID,
}

/// The kind of value that an option takes.
#[derive(Debug, Clone, Copy, PartialEq, Eq, Structural)]
pub enum OptionShape {
    /// A truth value.
    Bool,
    /// A signed 32-bit integer.
    Int,
    /// UTF-8 text.
    String,
}

impl SrtSocketOptions {
    /// The number by which the engine knows this option.
    pub open spec fn spec_code(self) -> i32 {
        match self {
            SrtSocketOptions::SrtOptRCVSYN => 2,
            SrtSocketOptions::SrtOptReuseAddr => 15,
            SrtSocketOptions::SrtOptLatency => 23,
            SrtSocketOptions::SrtOptRCVLatency => 43,
            SrtSocketOptions::SrtOptPeerLatency => 44,
            SrtSocketOptions::SrtOptStreamID => 46,
        }
    }

    /// The shape that values of this option have.
    pub open spec fn spec_shape(self) -> OptionShape {
        match self {
            SrtSocketOptions::SrtOptRCVSYN | SrtSocketOptions::SrtOptReuseAddr => OptionShape::Bool,
            SrtSocketOptions::SrtOptLatency
            | SrtSocketOptions::SrtOptRCVLatency
            | SrtSocketOptions::SrtOptPeerLatency => OptionShape::Int,
            SrtSocketOptions::SrtOptStreamID => OptionShape::String,
        }
    }

    /// The number by which the engine knows this option.
    #[verifier::when_used_as_spec(spec_code)]
    pub fn code(self) -> (code: i32)
        ensures
            code == self.spec_code(),
    {
        match self {
            SrtSocketOptions::SrtOptRCVSYN => 2,
            SrtSocketOptions::SrtOptReuseAddr => 15,
            SrtSocketOptions::SrtOptLatency => 23,
            SrtSocketOptions::SrtOptRCVLatency => 43,
            SrtSocketOptions::SrtOptPeerLatency => 44,
            SrtSocketOptions::SrtOptStreamID => 46,
        }
    }

    /// The shape that values of this option have.
    #[verifier::when_used_as_spec(spec_shape)]
    pub fn shape(self) -> (shape: OptionShape)
        ensures
            shape == self.spec_shape(),
    {
        match self {
            SrtSocketOptions::SrtOptRCVSYN | SrtSocketOptions::SrtOptReuseAddr => OptionShape::Bool,
            SrtSocketOptions::SrtOptLatency
            | SrtSocketOptions::SrtOptRCVLatency
            | SrtSocketOptions::SrtOptPeerLatency => OptionShape::Int,
            SrtSocketOptions::SrtOptStreamID => OptionShape::String,
        }
    }
}

/// Distinct options have distinct codes.
pub proof fn lemma_option_codes_distinct(a: SrtSocketOptions, b: SrtSocketOptions)
    ensures
        a.spec_code() == b.spec_code() <==> a == b,
{
}

/// The value of a socket option.
#[derive(Debug, PartialEq, Eq)]
pub enum SrtOptionValue {
    Bool(bool),
    Int(i32),
    String(String),
}

/// An [`SrtOptionValue`] with its text as a sequence of characters.
pub ghost enum SrtOptionValueView {
    Bool(bool),
    Int(i32),
    String(Seq<char>),
}

impl SrtOptionValueView {
    /// The shape of this value.
    pub open spec fn shape(self) -> OptionShape {
        match self {
            SrtOptionValueView::Bool(_) => OptionShape::Bool,
            SrtOptionValueView::Int(_) => OptionShape::Int,
            SrtOptionValueView::String(_) => OptionShape::String,
        }
    }
}

impl View for SrtOptionValue {
    type V = SrtOptionValueView;

    open spec fn view(&self) -> SrtOptionValueView {
        match self {
            SrtOptionValue::Bool(b) => SrtOptionValueView::Bool(*b),
            SrtOptionValue::Int(i) => SrtOptionValueView::Int(*i),
            SrtOptionValue::String(s) => SrtOptionValueView::String(s@),
        }
    }
}

impl SrtOptionValue {
    /// The shape of this value.
    pub fn shape(&self) -> (shape: OptionShape)
        ensures
            shape == self@.shape(),
    {
        match self {
            SrtOptionValue::Bool(_) => OptionShape::Bool,
            SrtOptionValue::Int(_) => OptionShape::Int,
            SrtOptionValue::String(_) => OptionShape::String,
        }
    }
}

/// The message of the error for a value whose shape is not the option's.
pub open spec fn shape_mismatch_text() -> Seq<char> {
    "Option value does not match the option's shape"@
}

/// The message of the error for a truth value that is not four bytes long.
pub open spec fn invalid_boolean_text() -> Seq<char> {
    "Invalid boolean value"@
}

/// The message of the error for an integer that is not four bytes long.
pub open spec fn invalid_integer_text() -> Seq<char> {
    "Invalid integer value"@
}

/// The message of the error for text that is not UTF-8.
pub open spec fn invalid_string_text() -> Seq<char> {
    "Invalid UTF-8 in String Flag"@
}

/// The bytes that carry `value` to the engine: a truth value as the integer
/// 1 or 0, an integer as its four bytes in memory, text as its UTF-8 bytes
/// without a terminator.
pub open spec fn option_bytes(value: SrtOptionValueView, order: ByteOrder) -> Seq<u8> {
    match value {
        SrtOptionValueView::Bool(b) => i32_bytes(if b { 1i32 } else { 0i32 }, order),
        SrtOptionValueView::Int(i) => i32_bytes(i, order),
        SrtOptionValueView::String(s) => encode_utf8(s),
    }
}

/// What encoding `value` for the option `opt_name` gives: its bytes, or the
/// rejection of a value of another shape than the option's.
pub open spec fn encoded_option(
    opt_name: SrtSocketOptions,
    value: SrtOptionValueView,
    order: ByteOrder,
) -> Result<Seq<u8>, SrtErrorView> {
    if value.shape() == opt_name.spec_shape() {
        Ok(option_bytes(value, order))
    } else {
        Err(SrtErrorView::SetSocketOptionError(shape_mismatch_text()))
    }
}

/// Whether `at` is where the first zero byte of `bytes` stands, or their
/// length where none of them is zero.
pub open spec fn is_first_nul(bytes: Seq<u8>, at: int) -> bool {
    &&& 0 <= at <= bytes.len()
    &&& forall|i: int| 0 <= i < at ==> bytes[i] != 0
    &&& at < bytes.len() ==> bytes[at] == 0
}

/// Where the first zero byte of `bytes` stands, or their length where none
/// of them is zero.
pub open spec fn first_nul(bytes: Seq<u8>) -> int {
    choose|at: int| is_first_nul(bytes, at)
}

/// Only one place is that of the first zero byte.
pub proof fn lemma_first_nul_unique(bytes: Seq<u8>, at: int)
    requires
        is_first_nul(bytes, at),
    ensures
        first_nul(bytes) == at,
{
    let other = first_nul(bytes);
    assert(is_first_nul(bytes, other));
    if other < at {
        assert(bytes[other] == 0);
    } else if at < other {
        assert(bytes[at] == 0);
    }
}

/// The part of the scratch buffer that the engine reports to have written.
/// A count that is negative or beyond the buffer leaves the buffer whole.
pub open spec fn reported_span(buffer: Seq<u8>, reported: i32) -> Seq<u8> {
    if 0 <= reported <= buffer.len() {
        buffer.subrange(0, reported as int)
    } else {
        buffer
    }
}

/// The bytes of `span` before its first zero byte.
pub open spec fn text_bytes(span: Seq<u8>) -> Seq<u8> {
    span.subrange(0, first_nul(span))
}

/// What decoding the engine's answer for the option `opt_name` gives. The
/// shape is that of the option, never read from the bytes. A truth value or an
/// integer takes a count of exactly four bytes; a truth value is true where
/// the integer is not zero. Text ends before the first zero byte of the
/// reported span and must be UTF-8.
pub open spec fn decoded_option(
    opt_name: SrtSocketOptions,
    buffer: Seq<u8>,
    reported: i32,
    order: ByteOrder,
) -> Result<SrtOptionValueView, SrtErrorView> {
    match opt_name.spec_shape() {
        OptionShape::Bool => if reported == 4 && buffer.len() >= 4 {
            Ok(SrtOptionValueView::Bool(i32_of_bytes(buffer.subrange(0, 4), order) != 0))
        } else {
            Err(SrtErrorView::GetSocketOptionError(invalid_boolean_text()))
        },
        OptionShape::Int => if reported == 4 && buffer.len() >= 4 {
            Ok(SrtOptionValueView::Int(i32_of_bytes(buffer.subrange(0, 4), order)))
        } else {
            Err(SrtErrorView::GetSocketOptionError(invalid_integer_text()))
        },
        OptionShape::String => {
            let text = text_bytes(reported_span(buffer, reported));
            if valid_utf8(text) {
                Ok(SrtOptionValueView::String(decode_utf8(text)))
            } else {
                Err(SrtErrorView::GetSocketOptionError(invalid_string_text()))
            }
        },
    }
}

/// Encodes `value` for the option `opt_name`. A value whose shape is not the
/// option's is rejected and nothing is encoded.
pub fn encode_option(opt_name: SrtSocketOptions, value: &SrtOptionValue, order: ByteOrder) -> (r:
    Result<Vec<u8>, SrtError>)
    ensures
        result_view(r) == encoded_option(opt_name, value@, order),
{
    if value.shape() != opt_name.shape() {
        return Err(
            SrtError::SetSocketOptionError(
                String::from_str("Option value does not match the option's shape"),
            ),
        );
    }
    match value {
        SrtOptionValue::Bool(b) => {
            let number: i32 = if *b {
                1
            } else {
                0
            };
            Ok(encode_i32(number, order))
        },
        SrtOptionValue::Int(i) => Ok(encode_i32(*i, order)),
        SrtOptionValue::String(s) => Ok(s.as_str().as_bytes_vec()),
    }
}

/// A zeroed scratch buffer of [`OPTION_BUFFER_SIZE`] bytes for the engine to
/// write an option's value into. Its length is the count that the engine is
/// told, [`OPTION_BUFFER_LENGTH`].
pub fn option_buffer() -> (buffer: Vec<u8>)
    ensures
        buffer@ == Seq::new(OPTION_BUFFER_SIZE as nat, |i: int| 0u8),
        buffer.len() == OPTION_BUFFER_LENGTH,
{
    let buffer = vec![0u8; OPTION_BUFFER_SIZE];
    assert(buffer@ =~= Seq::new(OPTION_BUFFER_SIZE as nat, |i: int| 0u8));
    buffer
}

/// Where the first zero byte of `bytes` stands, or their length.
pub fn first_nul_index(bytes: &[u8]) -> (at: usize)
    ensures
        at == first_nul(bytes@),
        is_first_nul(bytes@, at as int),
{
    let mut at: usize = 0;
    while at < bytes.len() && bytes[at] != 0
        invariant
            at <= bytes.len(),
            forall|i: int| 0 <= i < at ==> bytes@[i] != 0,
        decreases bytes.len() - at,
    {
        at += 1;
    }
    proof {
        lemma_first_nul_unique(bytes@, at as int);
    }
    at
}

/// Decodes what the engine wrote for the option `opt_name`: `buffer` is the
/// scratch buffer after the call and `reported` the count of bytes that the
/// engine says it wrote.
pub fn decode_option(
    opt_name: SrtSocketOptions,
    buffer: Vec<u8>,
    reported: i32,
    order: ByteOrder,
) -> (r: Result<SrtOptionValue, SrtError>)
    ensures
        result_view(r) == decoded_option(opt_name, buffer@, reported, order),
{
    match opt_name.shape() {
        OptionShape::Bool => {
            if reported != 4 || buffer.len() < 4 {
                return Err(
                    SrtError::GetSocketOptionError(String::from_str("Invalid boolean value")),
                );
            }
            let number = decode_i32(buffer.as_slice(), order);
            Ok(SrtOptionValue::Bool(number != 0))
        },
        OptionShape::Int => {
            if reported != 4 || buffer.len() < 4 {
                return Err(
                    SrtError::GetSocketOptionError(String::from_str("Invalid integer value")),
                );
            }
            let number = decode_i32(buffer.as_slice(), order);
            Ok(SrtOptionValue::Int(number))
        },
        OptionShape::String => {
            let mut span = buffer;
            if 0 <= reported && reported as usize <= span.len() {
                span.truncate(reported as usize);
            }
            let end = first_nul_index(span.as_slice());
            span.truncate(end);
            match string_from_utf8(span) {
                Some(text) => Ok(SrtOptionValue::String(text)),
                None => Err(
                    SrtError::GetSocketOptionError(
                        String::from_str("Invalid UTF-8 in String Flag"),
                    ),
                ),
            }
        },
    }
}

/// Encoding then decoding is lossless: where the engine hands back the bytes
/// it was given for a value of the option's shape, decoding them gives that
/// value. Text must hold no zero character, since text read back ends at the
/// first zero byte.
pub proof fn lemma_option_round_trip(
    opt_name: SrtSocketOptions,
    value: SrtOptionValueView,
    order: ByteOrder,
    buffer: Seq<u8>,
    reported: i32,
)
    requires
        value.shape() == opt_name.spec_shape(),
        0 <= reported <= buffer.len(),
        buffer.subrange(0, reported as int) == option_bytes(value, order),
        value matches SrtOptionValueView::String(s) ==> !encode_utf8(s).contains(0u8),
    ensures
        encoded_option(opt_name, value, order) == Ok::<Seq<u8>, SrtErrorView>(
            option_bytes(value, order),
        ),
        decoded_option(opt_name, buffer, reported, order) == Ok::<
            SrtOptionValueView,
            SrtErrorView,
        >(value),
{
    let span = buffer.subrange(0, reported as int);
    match value {
        SrtOptionValueView::Bool(b) => {
            let number = if b { 1i32 } else { 0i32 };
            lemma_i32_bytes_round_trip(number, order);
            assert(buffer.subrange(0, 4) == i32_bytes(number, order));
        },
        SrtOptionValueView::Int(i) => {
            lemma_i32_bytes_round_trip(i, order);
            assert(buffer.subrange(0, 4) == i32_bytes(i, order));
        },
        SrtOptionValueView::String(s) => {
            broadcast use vstd::utf8::encode_utf8_valid_utf8, vstd::utf8::encode_utf8_decode_utf8;
            assert(is_first_nul(span, span.len() as int)) by {
                assert forall|i: int| 0 <= i < span.len() implies span[i] != 0 by {
                    if span[i] == 0 {
                        assert(encode_utf8(s).contains(0u8));
                    }
                }
            }
            lemma_first_nul_unique(span, span.len() as int);
            assert(text_bytes(span) =~= encode_utf8(s));
        },
    }
}

} // verus!
