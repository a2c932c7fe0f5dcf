//! The snapshot oracle: what is asked of the snapshot file under each run
//! mode, and what the answer means for the check.
//!
//! The oracle never touches a file. It says which access the caller makes,
//! and judges what the file system answered. The laws at the end of this
//! file hold of every document and every state of the file, over a small
//! model of a file system.

use crate::failure::{result_view, Failure, FailureView};
use crate::mode::RunMode;
use vstd::prelude::*;

verus! {

/// The one access to the snapshot file that a reconciliation makes.
#[derive(Clone, Copy, Debug, PartialEq, Eq, Structural)]
pub enum Access {
    /// Read the whole file.
    Read,
    /// Write the document to the file, creating or truncating it.
    Overwrite,
}

/// What the file system answered to the access.
#[derive(Debug)]
pub enum Observation {
    /// The file was read, and these are its contents.
    Found(Vec<u8>),
    /// The file was to be read, and it does not exist.
    Missing,
    /// The document was written to the file.
    Stored,
    /// The document was to be written, and the file system rejected the write.
    Refused,
}

/// An [`Observation`] with the contents as a sequence of bytes.
pub enum ObservationView {
    Found(Seq<u8>),
    Missing,
    Stored,
    Refused,
}

impl View for Observation {
    type V = ObservationView;

    open spec fn view(&self) -> ObservationView {
        match self {
            Observation::Found(contents) => ObservationView::Found(contents@),
            Observation::Missing => ObservationView::Missing,
            Observation::Stored => ObservationView::Stored,
            Observation::Refused => ObservationView::Refused,
        }
    }
}

/// The access that `mode` calls for: Check mode reads, Update mode
/// overwrites.
pub open spec fn access_for(mode: RunMode) -> Access {
    match mode {
        RunMode::Check => Access::Read,
        RunMode::Update => Access::Overwrite,
    }
}

/// What an observation means for the check of `document`. Contents that
/// equal the document byte for byte pass; any other contents are
/// a mismatch that carries both texts.
pub open spec fn judged(document: Seq<u8>, observed: ObservationView) -> Result<
    (),
    FailureView,
> {
    match observed {
        ObservationView::Found(contents) => if contents == document {
            Ok(())
        } else {
            Err(FailureView::SnapshotMismatch { expected: contents, actual: document })
        },
        ObservationView::Missing => Err(FailureView::MissingSnapshot),
        ObservationView::Stored => Ok(()),
        ObservationView::Refused => Err(FailureView::IoFailure),
    }
}

/// Says which access to the snapshot file the caller makes under `mode`.
pub fn access(mode: RunMode) -> (access: Access)
    ensures
        access == access_for(mode),
{
    match mode {
        RunMode::Check => Access::Read,
        RunMode::Update => Access::Overwrite,
    }
}

/// Judges what the file system answered to the access for `document`.
pub fn reconcile(document: Vec<u8>, observed: Observation) -> (result: Result<(), Failure>)
    ensures
        result_view(result) == judged(document@, observed@),
{
    match observed {
        Observation::Found(contents) => {
            let same = contents == document;
            assert(same == (contents@ == document@)) by {
                if same {
                    assert(contents@ =~= document@);
                }
            }
            if same {
                Ok(())
            } else {
                Err(Failure::SnapshotMismatch { expected: contents, actual: document })
            }
        },
        Observation::Missing => Err(Failure::MissingSnapshot),
        Observation::Stored => Ok(()),
        Observation::Refused => Err(Failure::IoFailure),
    }
}

/// A file system as far as one snapshot file goes: what it answers to an
/// access for `document`, and what the file holds afterwards. `file` is what
/// the file holds before, `None` where it does not exist. A read changes
/// nothing. A write that is accepted leaves exactly the document; one that
/// is rejected is taken to leave the file as it was.
pub open spec fn served(
    access: Access,
    document: Seq<u8>,
    file: Option<Seq<u8>>,
    accepts_writes: bool,
) -> (ObservationView, Option<Seq<u8>>) {
    match access {
        Access::Read => match file {
            Some(contents) => (ObservationView::Found(contents), file),
            None => (ObservationView::Missing, file),
        },
        Access::Overwrite => if accepts_writes {
            (ObservationView::Stored, Some(document))
        } else {
            (ObservationView::Refused, file)
        },
    }
}

/// One whole reconciliation of `document` under `mode` against such a file
/// system: the result of the check, and what the file holds afterwards.
pub open spec fn reconciled(
    document: Seq<u8>,
    file: Option<Seq<u8>>,
    accepts_writes: bool,
    mode: RunMode,
) -> (Result<(), FailureView>, Option<Seq<u8>>) {
    let (observed, after) = served(access_for(mode), document, file, accepts_writes);
    (judged(document, observed), after)
}

/// Round trip: where the file system accepts the write, an update succeeds,
/// and a check of the same document that follows it at once succeeds too,
/// whatever the file held before.
pub proof fn update_then_check_succeeds(
    document: Seq<u8>,
    file: Option<Seq<u8>>,
    still_accepts_writes: bool,
)
    ensures
        reconciled(document, file, true, RunMode::Update).0 is Ok,
        reconciled(
            document,
            reconciled(document, file, true, RunMode::Update).1,
            still_accepts_writes,
            RunMode::Check,
        ).0 is Ok,
{
}

/// Mismatch detection: a check against a file that exists passes if and only
/// if the file equals the document byte for byte; any other contents fail
/// with `SnapshotMismatch`, which carries what the file holds and the
/// document.
pub proof fn check_detects_every_difference(
    document: Seq<u8>,
    contents: Seq<u8>,
    accepts_writes: bool,
)
    ensures
        reconciled(document, Some(contents), accepts_writes, RunMode::Check).0 is Ok <==> contents
            == document,
        contents != document ==> reconciled(
            document,
            Some(contents),
            accepts_writes,
            RunMode::Check,
        ).0 == Err::<(), FailureView>(
            FailureView::SnapshotMismatch { expected: contents, actual: document },
        ),
{
}

/// Missing file: a check against a file that does not exist fails with
/// `MissingSnapshot`, and the file still does not exist afterwards.
pub proof fn check_reports_missing_file(document: Seq<u8>, accepts_writes: bool)
    ensures
        reconciled(document, None, accepts_writes, RunMode::Check) == (
            Err::<(), FailureView>(FailureView::MissingSnapshot),
            None::<Seq<u8>>,
        ),
{
}

/// Mode isolation, Check: the access is a read, and the file holds
/// afterwards what it held before.
pub proof fn check_never_writes(document: Seq<u8>, file: Option<Seq<u8>>, accepts_writes: bool)
    ensures
        access_for(RunMode::Check) == Access::Read,
        reconciled(document, file, accepts_writes, RunMode::Check).1 == file,
{
}

/// Mode isolation, Update: the access is a write, and the result does not
/// depend on what the file held before: nothing is compared. The update
/// succeeds exactly where the write is accepted, and the file then holds
/// the document.
pub proof fn update_never_compares(
    document: Seq<u8>,
    file: Option<Seq<u8>>,
    other_file: Option<Seq<u8>>,
    accepts_writes: bool,
)
    ensures
        access_for(RunMode::Update) == Access::Overwrite,
        reconciled(document, file, accepts_writes, RunMode::Update).0 == reconciled(
            document,
            other_file,
            accepts_writes,
            RunMode::Update,
        ).0,
        reconciled(document, file, accepts_writes, RunMode::Update).0 is Ok <==> accepts_writes,
        accepts_writes ==> reconciled(document, file, accepts_writes, RunMode::Update).1 == Some(
            document,
        ),
        !accepts_writes ==> reconciled(document, file, accepts_writes, RunMode::Update).0 == Err::<
            (),
            FailureView,
        >(FailureView::IoFailure),
{
}

} // verus!
