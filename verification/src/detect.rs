//! From what a detector said of a buffer to the end of the run.
//!
//! The detector itself is asked outside this library: it weighs candidates
//! by statistics, and no contract can stand for the call. What it said comes
//! in as a [`Detection`].

use vstd::prelude::*;
use crate::dispatch::{can_dispatch, decode_label, decodes_to, outcome, Outcome};
use crate::error::{Error, ErrorView};

verus! {

/// What the detector made of a buffer.
#[derive(Debug, PartialEq, Eq)]
pub enum Detection {
    /// The detector itself failed, and this is its report.
    Failed(String),
    /// The detector ran and found no candidate at all.
    NoCandidate,
    /// The label of the detector's best guess.
    Best(String),
}

/// A [`Detection`] with its strings taken as sequences of characters.
pub enum DetectionView {
    Failed(Seq<char>),
    NoCandidate,
    Best(Seq<char>),
}

impl View for Detection {
    type V = DetectionView;

    open spec fn view(&self) -> DetectionView {
        match self {
            Detection::Failed(report) => DetectionView::Failed(report@),
            Detection::NoCandidate => DetectionView::NoCandidate,
            Detection::Best(label) => DetectionView::Best(label@),
        }
    }
}

/// True if `end` is how a run on `bytes` ends once the detector has given
/// `detection`. A failure of the detector is a failure of the run. So is a
/// detector without a candidate, but for an empty buffer, which is empty
/// text. A best guess is decoded under its label.
pub open spec fn resolves_to(bytes: Seq<u8>, detection: DetectionView, end: Outcome) -> bool {
    match detection {
        DetectionView::Failed(report) => end == Err::<Seq<char>, ErrorView>(
            ErrorView::Extern("detector"@, report),
        ),
        DetectionView::NoCandidate => if bytes.len() == 0 {
            end == Ok::<Seq<char>, ErrorView>(Seq::empty())
        } else {
            end == Err::<Seq<char>, ErrorView>(
                ErrorView::Extern("detector"@, "No best charset"@),
            )
        },
        DetectionView::Best(label) => decodes_to(bytes, label, end),
    }
}

/// True if the decoder that the detector's best guess names, if there is
/// one, can take the buffer. Every buffer of up to
/// [`MAX_INPUT_LEN`](crate::decoder::MAX_INPUT_LEN) bytes can be taken.
pub open spec fn can_resolve(bytes: Seq<u8>, detection: DetectionView) -> bool {
    detection matches DetectionView::Best(label) ==> can_dispatch(bytes, label)
}

/// Finishes a run on `bytes` from what the detector said of them.
///
/// An empty buffer is empty text unless the detector itself failed: that
/// nothing was found in nothing is no failure.
pub fn resolve(bytes: &[u8], detection: Detection) -> (result: Result<String, Error>)
    requires
        can_resolve(bytes@, detection@),
    ensures
        resolves_to(bytes@, detection@, outcome(result)),
{
    match detection {
        Detection::Failed(report) => Err(Error::Extern("detector", report)),
        Detection::NoCandidate => {
            if bytes.len() == 0 {
                Ok(String::new())
            } else {
                Err(Error::Extern("detector", String::from_str("No best charset")))
            }
        },
        Detection::Best(label) => decode_label(bytes, label.as_str()),
    }
}

/// A run is a function of the buffer and of what the detector said: two
/// runs on one buffer, to which the detector gave one answer, end alike.
pub proof fn lemma_deterministic(
    bytes: Seq<u8>,
    detection: DetectionView,
    first: Outcome,
    second: Outcome,
)
    requires
        resolves_to(bytes, detection, first),
        resolves_to(bytes, detection, second),
    ensures
        first == second,
{
}

/// A run on an empty buffer ends in empty text, whatever the detector said,
/// unless the detector itself failed.
pub proof fn lemma_empty_run(bytes: Seq<u8>, detection: DetectionView, end: Outcome)
    requires
        bytes.len() == 0,
        !(detection is Failed),
        resolves_to(bytes, detection, end),
    ensures
        end == Ok::<Seq<char>, ErrorView>(Seq::empty()),
{
}

} // verus!
