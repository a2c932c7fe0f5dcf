//! The snapshots: which documents are held against which snapshot files.

use crate::failure::{Failure, FailureView};
use crate::mode::RunMode;
use crate::oracle::reconciled;
use crate::tree::{document, render, CommandNode, RenderingStyle};
use vstd::prelude::*;
use vstd::utf8::{encode_utf8, encode_utf8_decode_utf8};

verus! {

/// The snapshot file of the public interface, relative to the project root.
pub const API_SNAPSHOT: &'static str = "api.golden";

/// The snapshot file of the long help, relative to the project root.
pub const LONG_HELP_SNAPSHOT: &'static str = "command-reference.golden";

/// The snapshot file of the short help, relative to the project root.
pub const SHORT_HELP_SNAPSHOT: &'static str = "command-reference-short.golden";

/// A document together with the snapshot file that holds what is expected
/// of it.
#[derive(Debug)]
pub struct Snapshot {
    pub file: &'static str,
    pub document: String,
}

impl Snapshot {
    /// The document as the snapshot file holds it: in UTF-8.
    pub open spec fn encoded(&self) -> Seq<u8> {
        encode_utf8(self.document@)
    }

    /// The bytes that are written to the snapshot file in Update mode, and
    /// that the file is compared with in Check mode.
    pub fn bytes(&self) -> (bytes: Vec<u8>)
        ensures
            bytes@ == self.encoded(),
    {
        self.document.as_str().as_bytes_vec()
    }
}

/// The two snapshots of a command tree, one for each rendering style.
#[derive(Debug)]
pub struct HelpSnapshots {
    pub long: Snapshot,
    pub short: Snapshot,
}

/// The snapshot of the public interface. `extraction` is what the external
/// generator handed back: the interface description as text, or the reason
/// why the build or the extraction failed. A text becomes the document for
/// the interface's snapshot file, unchanged; a failure becomes
/// `GenerationFailure` with the same reason.
pub fn api(extraction: Result<String, String>) -> (outcome: Result<Snapshot, Failure>)
    ensures
        match extraction {
            Ok(text) => outcome matches Ok(snapshot) && snapshot.file@ == API_SNAPSHOT@
                && snapshot.document@ == text@,
            Err(reason) => outcome matches Err(failure) && failure@
                == (FailureView::GenerationFailure { reason: reason@ }),
        },
{
    match extraction {
        Ok(text) => Ok(Snapshot { file: API_SNAPSHOT, document: text }),
        Err(reason) => Err(Failure::GenerationFailure { reason }),
    }
}

/// The snapshots of the command-line help. The tree under `root` is rendered
/// twice, in full each time: the long help of every command for one file,
/// the short help of every command for the other.
pub fn help_for_review(root: &CommandNode) -> (snapshots: HelpSnapshots)
    ensures
        snapshots.long.file@ == LONG_HELP_SNAPSHOT@,
        snapshots.long.document@ == document(root@, RenderingStyle::Verbose),
        snapshots.short.file@ == SHORT_HELP_SNAPSHOT@,
        snapshots.short.document@ == document(root@, RenderingStyle::Terse),
{
    let long = render(root, RenderingStyle::Verbose);
    let short = render(root, RenderingStyle::Terse);
    HelpSnapshots {
        long: Snapshot { file: LONG_HELP_SNAPSHOT, document: long },
        short: Snapshot { file: SHORT_HELP_SNAPSHOT, document: short },
    }
}

/// Regression detection: a check of a document against the snapshot that
/// was taken of another document fails with `SnapshotMismatch`. Two
/// documents that differ as texts differ as bytes.
pub proof fn a_changed_document_is_caught(
    stored: Seq<char>,
    current: Seq<char>,
    accepts_writes: bool,
)
    requires
        stored != current,
    ensures
        encode_utf8(stored) != encode_utf8(current),
        reconciled(
            encode_utf8(current),
            Some(encode_utf8(stored)),
            accepts_writes,
            RunMode::Check,
        ).0 == Err::<(), FailureView>(
            FailureView::SnapshotMismatch {
                expected: encode_utf8(stored),
                actual: encode_utf8(current),
            },
        ),
{
    encode_utf8_decode_utf8(stored);
    encode_utf8_decode_utf8(current);
}

} // verus!
