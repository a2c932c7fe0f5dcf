//! The ways in which a check fails.

use vstd::prelude::*;

verus! {

/// Why a check failed. No failure is retried or recovered from: each one
/// ends the check that met it.
#[derive(Debug)]
pub enum Failure {
    /// The external tool could not be launched, or it ended with a non-zero
    /// or abnormal exit status.
    ProcessFailure,
    /// The step that builds the interface description, or the one that
    /// extracts the public interface from it, failed.
    GenerationFailure { reason: String },
    /// Check mode, and the snapshot file does not exist.
    MissingSnapshot,
    /// Check mode, and the snapshot file differs from the document.
    SnapshotMismatch { expected: Vec<u8>, actual: Vec<u8> },
    /// Update mode, and the file system rejected the write.
    IoFailure,
}

/// A [`Failure`] with its texts as sequences of characters and its file
/// contents as sequences of bytes.
pub enum FailureView {
    ProcessFailure,
    GenerationFailure { reason: Seq<char> },
    MissingSnapshot,
    SnapshotMismatch { expected: Seq<u8>, actual: Seq<u8> },
    IoFailure,
}

impl View for Failure {
    type V = FailureView;

    open spec fn view(&self) -> FailureView {
        match self {
            Failure::ProcessFailure => FailureView::ProcessFailure,
            Failure::GenerationFailure { reason } => FailureView::GenerationFailure {
                reason: reason@,
            },
            Failure::MissingSnapshot => FailureView::MissingSnapshot,
            Failure::SnapshotMismatch { expected, actual } => FailureView::SnapshotMismatch {
                expected: expected@,
                actual: actual@,
            },
            Failure::IoFailure => FailureView::IoFailure,
        }
    }
}

/// The view of a check's result: success, or the view of its failure.
pub open spec fn result_view(result: Result<(), Failure>) -> Result<(), FailureView> {
    match result {
        Ok(_) => Ok(()),
        Err(failure) => Err(failure@),
    }
}

} // verus!
