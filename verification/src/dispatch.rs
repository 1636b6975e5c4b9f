//! The dispatcher: from a label and a buffer to text, or to the reason why
//! there is none.

use vstd::prelude::*;
use vstd::utf8::{decode_utf8, encode_utf8, is_ascii_chars, valid_utf8};
use crate::charset::{normalize, normalized, Charset};
use crate::decoder::{
    ascii_text, can_decode, decode_whole, decoding, is_ascii_bytes, known_of_decoder,
};
use crate::error::{Error, ErrorView};

verus! {

/// How a run ended, with its strings taken as sequences of characters.
pub type Outcome = Result<Seq<char>, ErrorView>;

/// The outcome that a result stands for.
pub open spec fn outcome(result: Result<String, Error>) -> Outcome {
    match result {
        Ok(text) => Ok(text@),
        Err(error) => Err(error@),
    }
}

/// The strict reading of what a decoder made of a buffer: the text if
/// nothing was malformed, and else a failure that carries the label.
pub open spec fn accepted(label: Seq<char>, decoded: (Seq<char>, bool)) -> Outcome {
    if decoded.1 {
        Err(ErrorView::FailedDecoding(label))
    } else {
        Ok(decoded.0)
    }
}

/// The outcome of decoding `bytes` under `label`. An empty buffer is empty
/// text, whatever the label. Else the label is brought into normal form, and
/// that form is what a failure carries.
pub open spec fn dispatched(bytes: Seq<u8>, label: Seq<char>) -> Outcome {
    let key = normalized(label);
    if bytes.len() == 0 {
        Ok(Seq::empty())
    } else {
        match Charset::of_normalized(key) {
            Some(charset) => accepted(key, decoding(charset, bytes)),
            None => Err(ErrorView::UnresolvedEncoding(key)),
        }
    }
}

/// True if `end` is how decoding `bytes` under `label` ends: it is the
/// outcome that [`dispatched`] gives, and where a decoder was asked, it
/// behaves on `bytes` as [`known_of_decoder`] says.
pub open spec fn decodes_to(bytes: Seq<u8>, label: Seq<char>, end: Outcome) -> bool {
    &&& end == dispatched(bytes, label)
    &&& bytes.len() > 0 ==> (Charset::of_label(label) matches Some(charset) ==> known_of_decoder(
        charset,
        bytes,
        decoding(charset, bytes),
    ))
}

/// True if the decoder that `label` names, if it names one, can take the
/// buffer. Every buffer of up to [`MAX_INPUT_LEN`](crate::decoder::MAX_INPUT_LEN)
/// bytes can be taken.
pub open spec fn can_dispatch(bytes: Seq<u8>, label: Seq<char>) -> bool {
    Charset::of_label(label) matches Some(charset) ==> can_decode(charset, bytes)
}

/// Hands out the text that a decoder produced only if the decoder met
/// nothing malformed. Text in which a malformed sequence was replaced is
/// dropped, and the failure carries the label under which it was decoded.
pub fn accept(label: String, text: String, malformed: bool) -> (result: Result<String, Error>)
    ensures
        outcome(result) == accepted(label@, (text@, malformed)),
{
    if malformed {
        Err(Error::FailedDecoding(label))
    } else {
        Ok(text)
    }
}

/// Decodes a whole buffer under the label that a detector gave it.
///
/// An empty buffer is empty text under any label. Else the label is brought
/// into normal form and looked up in the table of encodings. A label outside
/// the table is an [`Error::UnresolvedEncoding`]. A label of the table alone
/// decides the decoder: the buffer is decoded as a whole, and a malformed
/// sequence anywhere in it is an [`Error::FailedDecoding`]. Both failures
/// carry the label in its normal form.
pub fn decode_label(bytes: &[u8], label: &str) -> (result: Result<String, Error>)
    requires
        can_dispatch(bytes@, label@),
    ensures
        decodes_to(bytes@, label@, outcome(result)),
{
    if bytes.len() == 0 {
        return Ok(String::new());
    }
    let key = normalize(label);
    match Charset::from_normalized(key.as_str()) {
        Some(charset) => {
            let (text, malformed) = decode_whole(charset, bytes);
            accept(key, text, malformed)
        },
        None => Err(Error::UnresolvedEncoding(key)),
    }
}

/// An empty buffer decodes to empty text, whatever the label.
pub proof fn lemma_empty_buffer(bytes: Seq<u8>, label: Seq<char>, end: Outcome)
    requires
        bytes.len() == 0,
        decodes_to(bytes, label, end),
    ensures
        end == Ok::<Seq<char>, ErrorView>(Seq::empty()),
{
}

/// A label outside the table ends in `UnresolvedEncoding`, whatever a buffer
/// that is not empty holds.
pub proof fn lemma_unlisted_label(bytes: Seq<u8>, label: Seq<char>, end: Outcome)
    requires
        bytes.len() > 0,
        Charset::of_label(label) is None,
        decodes_to(bytes, label, end),
    ensures
        end == Err::<Seq<char>, ErrorView>(ErrorView::UnresolvedEncoding(normalized(label))),
{
}

/// Under a label of UTF-8, a buffer of valid UTF-8 comes out as the text
/// that it encodes, whole.
pub proof fn lemma_valid_utf8_accepted(bytes: Seq<u8>, label: Seq<char>, end: Outcome)
    requires
        Charset::of_label(label) == Some(Charset::Utf8),
        valid_utf8(bytes),
        decodes_to(bytes, label, end),
    ensures
        end == Ok::<Seq<char>, ErrorView>(decode_utf8(bytes)),
{
    if bytes.len() == 0 {
        assert(decode_utf8(bytes) =~= Seq::<char>::empty());
    }
}

/// Under a label of UTF-8, the UTF-8 of any text comes back as that text.
pub proof fn lemma_utf8_round_trip(text: Seq<char>, label: Seq<char>, end: Outcome)
    requires
        Charset::of_label(label) == Some(Charset::Utf8),
        decodes_to(encode_utf8(text), label, end),
    ensures
        end == Ok::<Seq<char>, ErrorView>(text),
{
    vstd::utf8::encode_utf8_valid_utf8(text);
    vstd::utf8::encode_utf8_decode_utf8(text);
    lemma_valid_utf8_accepted(encode_utf8(text), label, end);
}

/// Under a label of UTF-8, the UTF-8 of a text of ASCII characters comes
/// back as that text, with no error.
pub proof fn lemma_ascii_round_trip(text: Seq<char>, label: Seq<char>, end: Outcome)
    requires
        is_ascii_chars(text),
        Charset::of_label(label) == Some(Charset::Utf8),
        decodes_to(encode_utf8(text), label, end),
    ensures
        end == Ok::<Seq<char>, ErrorView>(text),
{
    lemma_utf8_round_trip(text, label, end);
}

/// Under every label of the table but those of UTF-16, a buffer of ASCII
/// bytes comes out as the text that it spells.
pub proof fn lemma_ascii_buffer(bytes: Seq<u8>, label: Seq<char>, end: Outcome)
    requires
        Charset::of_label(label) matches Some(charset) && !charset.is_utf16(),
        is_ascii_bytes(bytes),
        decodes_to(bytes, label, end),
    ensures
        end == Ok::<Seq<char>, ErrorView>(ascii_text(bytes)),
{
    crate::decoder::lemma_ascii_is_utf8(bytes);
    if bytes.len() == 0 {
        assert(ascii_text(bytes) =~= Seq::<char>::empty());
    }
}

/// Under a label of UTF-8, a buffer that is not valid UTF-8 ends in
/// `FailedDecoding` with that label in normal form, and never in text,
/// whatever the buffer starts with.
pub proof fn lemma_invalid_utf8_rejected(bytes: Seq<u8>, label: Seq<char>, end: Outcome)
    requires
        Charset::of_label(label) == Some(Charset::Utf8),
        !valid_utf8(bytes),
        decodes_to(bytes, label, end),
    ensures
        end == Err::<Seq<char>, ErrorView>(ErrorView::FailedDecoding(normalized(label))),
{
}

/// Under a label of UTF-16, a buffer of an odd number of bytes ends in
/// `FailedDecoding`.
pub proof fn lemma_odd_utf16_rejected(bytes: Seq<u8>, label: Seq<char>, end: Outcome)
    requires
        Charset::of_label(label) matches Some(charset) && charset.is_utf16(),
        bytes.len() % 2 == 1,
        decodes_to(bytes, label, end),
    ensures
        end == Err::<Seq<char>, ErrorView>(ErrorView::FailedDecoding(normalized(label))),
{
}

} // verus!
