//! Text as the engine's transport carries it: bytes closed by a zero terminator.

use crate::error::NulError;
use core::str::Utf8Error;
use vstd::prelude::*;
use vstd::slice::slice_subrange;
use vstd::slice::slice_to_vec;
use vstd::utf8::char_is_scalar;
use vstd::utf8::char_u32_cast;
use vstd::utf8::decode_utf8;
use vstd::utf8::encode_scalar;
use vstd::utf8::encode_utf8;
use vstd::utf8::encode_utf8_decode_utf8;
use vstd::utf8::encode_utf8_valid_utf8;
use vstd::utf8::has_width_1_encoding;
use vstd::utf8::has_width_2_encoding;
use vstd::utf8::has_width_3_encoding;
use vstd::utf8::last_continuation_byte;
use vstd::utf8::leading_byte_width_1;
use vstd::utf8::leading_byte_width_2;
use vstd::utf8::leading_byte_width_3;
use vstd::utf8::leading_byte_width_4;
use vstd::utf8::second_last_continuation_byte;
use vstd::utf8::third_last_continuation_byte;
use vstd::utf8::valid_utf8;

verus! {

/// `core::str::Utf8Error`, the fault that the standard library finds in bytes that are no
/// text. Nothing is known of what it holds: it is carried to the caller as it came.
#[verifier::external_type_specification]
#[verifier::external_body]
pub struct ExUtf8Error(core::str::Utf8Error);

/// The fault that `core::str::from_utf8` reports for `bytes` that are not well-formed UTF-8.
/// It depends on the bytes alone.
pub uninterp spec fn utf8_error(bytes: Seq<u8>) -> Utf8Error;

/// Believed of `core::str::from_utf8`, not proved: it accepts exactly the well-formed UTF-8
/// sequences, and then yields the text that they encode; for any other sequence it yields
/// the fault named `utf8_error`.
pub assume_specification[ core::str::from_utf8 ](v: &[u8]) -> (r: Result<&str, Utf8Error>)
    ensures
        r is Ok <==> valid_utf8(v@),
        r is Ok ==> r->Ok_0@ == decode_utf8(v@),
        r is Err ==> r->Err_0 == utf8_error(v@),
;

/// The byte that ends a text in transport.
pub const TERMINATOR: u8 = 0;

/// No byte of `bytes` is the terminator.
pub open spec fn terminator_free(bytes: Seq<u8>) -> bool {
    forall|i: int| 0 <= i < bytes.len() ==> bytes[i] != TERMINATOR
}

/// `at` is where the first terminator of `bytes` stands.
pub open spec fn first_terminator(bytes: Seq<u8>, at: int) -> bool {
    &&& 0 <= at < bytes.len()
    &&& bytes[at] == TERMINATOR
    &&& forall|i: int| 0 <= i < at ==> bytes[i] != TERMINATOR
}

/// How many bytes of `bytes` come before its first terminator: all of them when it has none.
pub open spec fn text_len(bytes: Seq<u8>) -> int {
    if terminator_free(bytes) {
        bytes.len() as int
    } else {
        choose|at: int| first_terminator(bytes, at)
    }
}

/// The text that a terminated buffer holds: its bytes up to the first terminator.
pub open spec fn text_of(buffer: Seq<u8>) -> Seq<u8> {
    buffer.take(text_len(buffer))
}

/// The transport form of `text`: its bytes, then the terminator.
pub open spec fn terminated(text: Seq<u8>) -> Seq<u8> {
    text.push(TERMINATOR)
}

/// Counts the bytes of `bytes` that come before its first terminator.
pub fn measure(bytes: &[u8]) -> (n: usize)
    ensures
        n == text_len(bytes@),
        n <= bytes@.len(),
        n < bytes@.len() <==> !terminator_free(bytes@),
        n < bytes@.len() ==> first_terminator(bytes@, n as int),
{
    let mut i: usize = 0;
    while i < bytes.len()
        invariant
            i <= bytes@.len(),
            forall|j: int| 0 <= j < i ==> bytes@[j] != TERMINATOR,
        decreases bytes@.len() - i,
    {
        if bytes[i] == TERMINATOR {
            proof {
                lemma_first_terminator_unique(bytes@, i as int);
            }
            return i;
        }
        i = i + 1;
    }
    i
}

/// Puts `text` into transport form, or refuses it for the NUL character it holds.
pub fn to_transport(text: &str) -> (r: Result<Vec<u8>, NulError>)
    ensures
        r is Ok <==> !text@.contains('\0'),
        r is Ok ==> r->Ok_0@ == terminated(encode_utf8(text@)),
        r is Err ==> r->Err_0.refused() == encode_utf8(text@),
        r is Err ==> r->Err_0.position() == text_len(encode_utf8(text@)),
{
    proof {
        lemma_terminator_is_nul(text@);
    }
    let bytes = text.as_bytes();
    let at = measure(bytes);
    let mut wire = slice_to_vec(bytes);
    if at < bytes.len() {
        Err(NulError::new(at, wire))
    } else {
        wire.push(TERMINATOR);
        Ok(wire)
    }
}

/// `r` is what reading the terminated `buffer` as text gives: the text before the first
/// terminator when that is well-formed UTF-8, the fault found in it when it is not.
pub open spec fn decodes(buffer: Seq<u8>, r: Result<String, Utf8Error>) -> bool {
    match r {
        Ok(text) => valid_utf8(text_of(buffer)) && text@ == decode_utf8(text_of(buffer)),
        Err(fault) => !valid_utf8(text_of(buffer)) && fault == utf8_error(text_of(buffer)),
    }
}

/// Copies a text that was read in place into an owned value, and hands a fault on as it is.
pub fn owned(read: Result<&str, Utf8Error>) -> (r: Result<String, Utf8Error>)
    ensures
        r is Ok <==> read is Ok,
        r is Ok ==> r->Ok_0@ == read->Ok_0@,
        r is Err ==> r->Err_0 == read->Err_0,
{
    match read {
        Ok(text) => Ok(text.to_owned()),
        Err(fault) => Err(fault),
    }
}

/// Reads the terminated `buffer` as text and copies it into an owned value.
pub fn from_transport(buffer: &[u8]) -> (r: Result<String, Utf8Error>)
    ensures
        decodes(buffer@, r),
{
    let n = measure(buffer);
    let text = slice_subrange(buffer, 0, n);
    owned(core::str::from_utf8(text))
}

/// A sequence has at most one first terminator, and `text_len` is where it stands.
pub proof fn lemma_first_terminator_unique(bytes: Seq<u8>, at: int)
    requires
        first_terminator(bytes, at),
    ensures
        !terminator_free(bytes),
        text_len(bytes) == at,
{
    let chosen = text_len(bytes);
    assert(first_terminator(bytes, chosen));
}

/// A text without a terminator is what its transport form holds.
pub proof fn lemma_text_of_terminated(text: Seq<u8>)
    requires
        terminator_free(text),
    ensures
        text_of(terminated(text)) == text,
{
    let wire = terminated(text);
    assert(first_terminator(wire, text.len() as int));
    lemma_first_terminator_unique(wire, text.len() as int);
    assert(wire.take(text.len() as int) =~= text);
}

/// Transport loses nothing: a text without the NUL character, put into transport form and
/// read back from there, is read as well-formed and is the text that was put in.
pub proof fn lemma_transport_round_trip(text: Seq<char>, read: Result<String, Utf8Error>)
    requires
        !text.contains('\0'),
        decodes(terminated(encode_utf8(text)), read),
    ensures
        read is Ok,
        read->Ok_0@ == text,
{
    lemma_terminator_is_nul(text);
    lemma_text_of_terminated(encode_utf8(text));
    encode_utf8_valid_utf8(text);
    encode_utf8_decode_utf8(text);
}

/// The bytes of one encoded character hold the terminator only where the character is NUL.
proof fn lemma_scalar_bytes(scalar: u32)
    by (bit_vector)
    ensures
        has_width_1_encoding(scalar) ==> (leading_byte_width_1(scalar) == 0u8 <==> scalar == 0u32),
        leading_byte_width_2(scalar) != 0u8,
        leading_byte_width_3(scalar) != 0u8,
        leading_byte_width_4(scalar) != 0u8,
        last_continuation_byte(scalar) != 0u8,
        second_last_continuation_byte(scalar) != 0u8,
        third_last_continuation_byte(scalar) != 0u8,
{
}

/// The encoding of one character holds the terminator exactly where the character is NUL.
proof fn lemma_scalar_is_nul(c: char)
    ensures
        terminator_free(encode_scalar(c as u32)) <==> c != '\0',
{
    let scalar = c as u32;
    let bytes = encode_scalar(scalar);
    char_is_scalar(c);
    lemma_scalar_bytes(scalar);
    assert(c == '\0' <==> scalar == 0u32) by {
        char_u32_cast(c, scalar);
        char_u32_cast('\0', 0u32);
    }
    if scalar == 0 {
        assert(bytes[0] == TERMINATOR);
    } else {
        assert forall|i: int| 0 <= i < bytes.len() implies bytes[i] != TERMINATOR by {
            if has_width_1_encoding(scalar) {
                assert(bytes[0] == leading_byte_width_1(scalar));
            } else if has_width_2_encoding(scalar) {
                assert(bytes[0] == leading_byte_width_2(scalar));
                assert(bytes[1] == last_continuation_byte(scalar));
            } else if has_width_3_encoding(scalar) {
                assert(bytes[0] == leading_byte_width_3(scalar));
                assert(bytes[1] == second_last_continuation_byte(scalar));
                assert(bytes[2] == last_continuation_byte(scalar));
            } else {
                assert(bytes[0] == leading_byte_width_4(scalar));
                assert(bytes[1] == third_last_continuation_byte(scalar));
                assert(bytes[2] == second_last_continuation_byte(scalar));
                assert(bytes[3] == last_continuation_byte(scalar));
            }
        }
    }
}

/// A text holds a terminator byte exactly where it holds the NUL character.
pub proof fn lemma_terminator_is_nul(text: Seq<char>)
    ensures
        terminator_free(encode_utf8(text)) <==> !text.contains('\0'),
    decreases text.len(),
{
    if text.len() > 0 {
        let head = encode_scalar(text[0] as u32);
        let rest = text.drop_first();
        let tail = encode_utf8(rest);
        lemma_terminator_is_nul(rest);
        lemma_scalar_is_nul(text[0]);
        if terminator_free(head + tail) {
            assert forall|i: int| 0 <= i < head.len() implies head[i] != TERMINATOR by {
                assert((head + tail)[i] == head[i]);
            }
            assert forall|i: int| 0 <= i < tail.len() implies tail[i] != TERMINATOR by {
                assert((head + tail)[head.len() + i] == tail[i]);
            }
        }
        if text.contains('\0') {
            let at = choose|at: int| 0 <= at < text.len() && text[at] == '\0';
            if at > 0 {
                assert(rest[at - 1] == '\0');
            }
        }
        if rest.contains('\0') {
            let at = choose|at: int| 0 <= at < rest.len() && rest[at] == '\0';
            assert(text[at + 1] == '\0');
        }
    }
}

} // verus!
