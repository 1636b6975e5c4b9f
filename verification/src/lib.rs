//! Turns a byte buffer of unknown character encoding into Unicode text.
//!
//! A detector guesses the encoding and names it by a label. The dispatcher
//! looks the label up in a closed table of encodings, decodes the whole
//! buffer with the decoder of that encoding, and hands the text out only if
//! nothing in the buffer was malformed. The detector is asked by the caller,
//! who hands its answer to [`resolve`].
//!
//! All of it is verified with Verus but two contracts, which are taken on
//! trust: that of the decoders (`decoder::decode_whole`, with the name
//! `decoder::decoding` for what they return), and that of `String::push`.

pub mod charset;
pub mod decoder;
pub mod detect;
pub mod dispatch;
pub mod error;

pub use charset::{normalize, Charset};
pub use decoder::MAX_INPUT_LEN;
pub use detect::{resolve, Detection};
pub use dispatch::{accept, decode_label};
pub use error::Error;
