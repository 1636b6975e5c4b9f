//! The decoders of the table's encodings, which `encoding_rs` provides.
//!
//! What a decoder makes of a buffer is a table lookup that takes pages to
//! write down, so the contracts name it ([`decoding`]) and state beside the
//! name what is known of it without the tables ([`known_of_decoder`]).
//!
//! A decoder reads the whole buffer in its own encoding. It neither looks
//! for a byte order mark to choose another encoding by, nor leaves one out
//! of the text: as UTF-8, the bytes `EF BB BF` are the character U+FEFF.

use vstd::prelude::*;
use vstd::utf8::{decode_utf8, encode_utf8, valid_utf8};
use crate::charset::Charset;

verus! {

/// The longest buffer for which a decoder can always reserve room for the
/// text. A decoder reserves up to three bytes of text, and a few more, for
/// each byte of input, and the size of that reservation has to fit the
/// machine.
pub const MAX_INPUT_LEN: usize = usize::MAX / 8;

/// True of a buffer whose bytes all stand for ASCII characters.
pub open spec fn is_ascii_bytes(bytes: Seq<u8>) -> bool {
    forall|i: int| 0 <= i < bytes.len() ==> #[trigger] bytes[i] <= 0x7f
}

/// The text of an ASCII buffer: each byte as the character it stands for.
pub open spec fn ascii_text(bytes: Seq<u8>) -> Seq<char> {
    Seq::new(bytes.len(), |i: int| bytes[i] as char)
}

/// True where the decoder of `charset` hands the buffer out as it is, and
/// reserves nothing: valid UTF-8 as UTF-8, and ASCII in the encodings that
/// hold ASCII.
pub open spec fn kept_as_it_is(charset: Charset, bytes: Seq<u8>) -> bool {
    match charset {
        Charset::Utf8 => valid_utf8(bytes),
        Charset::Utf16Be | Charset::Utf16Le => false,
        _ => is_ascii_bytes(bytes),
    }
}

/// True of a buffer that the decoder of `charset` can take: one for which it
/// has nothing to reserve, or can reserve what it needs.
pub open spec fn can_decode(charset: Charset, bytes: Seq<u8>) -> bool {
    bytes.len() <= MAX_INPUT_LEN || kept_as_it_is(charset, bytes)
}

/// What the decoder of `charset` makes of a whole buffer: the text, in which
/// each malformed sequence is replaced by U+FFFD, and whether the buffer
/// held a malformed sequence.
pub uninterp spec fn decoding(charset: Charset, bytes: Seq<u8>) -> (Seq<char>, bool);

/// What is known of `out`, the result of decoding `bytes` as `charset`,
/// without the tables of the encodings.
pub open spec fn known_of_decoder(charset: Charset, bytes: Seq<u8>, out: (Seq<char>, bool)) -> bool {
    match charset {
        // UTF-8 is malformed exactly where it is not valid, and valid UTF-8
        // is the text that it encodes.
        Charset::Utf8 => {
            &&& out.1 == !valid_utf8(bytes)
            &&& valid_utf8(bytes) ==> out.0 == decode_utf8(bytes)
        },
        // UTF-16 comes in units of two bytes.
        Charset::Utf16Be | Charset::Utf16Le => bytes.len() % 2 == 1 ==> out.1,
        // The other encodings hold ASCII as it is.
        _ => is_ascii_bytes(bytes) ==> out == (ascii_text(bytes), false),
    }
}

/// Decodes a whole buffer as `charset`. The encoding alone decides how the
/// bytes are read: a byte order mark at the head of the buffer is decoded
/// like any other bytes.
///
/// Calls `encoding_rs::Encoding::decode_without_bom_handling` on the
/// encoding that stands for `charset`. Its contract is taken on trust. It
/// claims that the call is a function of the encoding and the bytes, and of
/// that function what [`known_of_decoder`] lists: that as UTF-8 the buffer
/// is reported malformed exactly if it is not valid UTF-8, and otherwise
/// comes back as the text it encodes; that an odd number of bytes is
/// malformed UTF-16; and that in the other encodings of the table a buffer
/// of ASCII bytes comes back as it is. The decoder panics where the size of
/// its reservation for the text overflows: the bound on the length keeps
/// that size within `isize::MAX`, and text that it hands out as it is takes
/// no reservation.
#[verifier::external_body]
pub(crate) fn decode_whole(charset: Charset, bytes: &[u8]) -> (out: (String, bool))
    requires
        can_decode(charset, bytes@),
    ensures
        (out.0@, out.1) == decoding(charset, bytes@),
        known_of_decoder(charset, bytes@, (out.0@, out.1)),
{
    let encoding = match charset {
        Charset::Big5 => encoding_rs::BIG5,
        Charset::EucJp => encoding_rs::EUC_JP,
        Charset::EucKr => encoding_rs::EUC_KR,
        Charset::Gb18030 => encoding_rs::GB18030,
        Charset::Gbk => encoding_rs::GBK,
        Charset::Utf8 => encoding_rs::UTF_8,
        Charset::Utf16Be => encoding_rs::UTF_16BE,
        Charset::Utf16Le => encoding_rs::UTF_16LE,
    };
    let (text, malformed) = encoding.decode_without_bom_handling(bytes);
    (text.into_owned(), malformed)
}

/// An ASCII buffer is valid UTF-8 and encodes its own text.
pub proof fn lemma_ascii_is_utf8(bytes: Seq<u8>)
    requires
        is_ascii_bytes(bytes),
    ensures
        valid_utf8(bytes),
        decode_utf8(bytes) == ascii_text(bytes),
{
    let text = ascii_text(bytes);
    vstd::utf8::is_ascii_chars_encode_utf8(text);
    assert(encode_utf8(text) =~= bytes);
    vstd::utf8::encode_utf8_valid_utf8(text);
    vstd::utf8::encode_utf8_decode_utf8(text);
}

} // verus!
