//! The ways in which turning a buffer into text can fail.

use vstd::prelude::*;

verus! {

/// Why a buffer could not be turned into text.
#[derive(Debug, PartialEq, Eq)]
pub enum Error {
    /// A collaborator failed: the loader (`"io"`) or the detector
    /// (`"detector"`). The second field is what it reported.
    Extern(&'static str, String),
    /// The detector's best guess is a label outside the table of encodings.
    UnresolvedEncoding(String),
    /// No encoding is known at all. It is here for callers that hold one: no
    /// function of this library returns it.
    UnknownEncoding,
    /// The buffer holds bytes that are malformed in the encoding the label
    /// names.
    FailedDecoding(String),
}

/// An [`Error`] with its strings taken as sequences of characters.
pub enum ErrorView {
    Extern(Seq<char>, Seq<char>),
    UnresolvedEncoding(Seq<char>),
    UnknownEncoding,
    FailedDecoding(Seq<char>),
}

impl View for Error {
    type V = ErrorView;

    open spec fn view(&self) -> ErrorView {
        match self {
            Error::Extern(component, detail) => ErrorView::Extern(component@, detail@),
            Error::UnresolvedEncoding(label) => ErrorView::UnresolvedEncoding(label@),
            Error::UnknownEncoding => ErrorView::UnknownEncoding,
            Error::FailedDecoding(label) => ErrorView::FailedDecoding(label@),
        }
    }
}

impl ErrorView {
    /// The sentence that describes the error to a reader.
    pub open spec fn message(self) -> Seq<char> {
        match self {
            ErrorView::Extern(component, detail) => "extern crate '"@ + component + "': "@
                + detail,
            ErrorView::UnresolvedEncoding(label) => "unresolved encoding '"@ + label + "'"@,
            ErrorView::UnknownEncoding => "unknown encoding"@,
            ErrorView::FailedDecoding(label) => "File decoding error using "@ + label,
        }
    }

    /// True of a failure of the loader.
    pub open spec fn is_io(self) -> bool {
        self matches ErrorView::Extern(component, _) && component == "io"@
    }
}

impl Error {
    /// The failure of the loader to read its source, with the system's
    /// description of what went wrong.
    pub fn io(detail: String) -> (error: Error)
        ensures
            error@ == ErrorView::Extern("io"@, detail@),
            error@.is_io(),
    {
        Error::Extern("io", detail)
    }

    /// The sentence that describes the error to a reader.
    pub fn message(&self) -> (text: String)
        ensures
            text@ == self@.message(),
    {
        match self {
            Error::Extern(component, detail) => {
                let mut text = String::from_str("extern crate '");
                text.append(component);
                text.append("': ");
                text.append(detail.as_str());
                text
            },
            Error::UnresolvedEncoding(label) => {
                let mut text = String::from_str("unresolved encoding '");
                text.append(label.as_str());
                text.append("'");
                text
            },
            Error::UnknownEncoding => String::from_str("unknown encoding"),
            Error::FailedDecoding(label) => {
                let mut text = String::from_str("File decoding error using ");
                text.append(label.as_str());
                text
            },
        }
    }
}

} // verus!
