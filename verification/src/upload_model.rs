//! The upload pipeline as a transition function over views: which state and
//! which request follow from a state and what the outside world reported.

use vstd::prelude::*;
use crate::blob::blob_path;
use crate::catalog::SoundRecordView;
use crate::filename::{extension_of, stem_of};
use crate::upload_types::{
    PartHeaderView, UploadActionView, UploadBatchView, UploadErrorView, UploadEventView,
    UploadFailureView, UploadResponseView, UploadStageView, UploadSuccessView,
};

verus! {

/// The key of the form field that is reserved for tags. A part under this key
/// ends the batch.
pub open spec fn reserved_key() -> Seq<char> {
    "tags"@
}

/// The fingerprint every row carries until content is fingerprinted.
pub open spec fn placeholder_hash() -> Seq<char> {
    "hash"@
}

pub open spec fn missing_filename_reason() -> Seq<char> {
    "Uploaded part carries no filename."@
}

pub open spec fn missing_extension_reason() -> Seq<char> {
    "Uploaded file name has no extension."@
}

/// The words in which a failure is reported.
pub open spec fn reason_of(error: UploadErrorView) -> Seq<char> {
    match error {
        UploadErrorView::MissingFilename => missing_filename_reason(),
        UploadErrorView::MissingExtension => missing_extension_reason(),
        UploadErrorView::Io(why) => why,
        UploadErrorView::Storage(why) => why,
    }
}

/// The report entry for a file that was not taken.
pub open spec fn failure_of(filename: Seq<char>, error: UploadErrorView) -> UploadFailureView {
    UploadFailureView { filename, reason: reason_of(error) }
}

/// What the pipeline makes of a part before anything is written.
pub enum PartKindView {
    /// The part stands under the reserved key.
    Reserved,
    /// The part is refused, with this name (empty where it has none) and for this reason.
    Refused { filename: Seq<char>, error: UploadErrorView },
    /// The part is a file to store.
    File { filename: Seq<char>, stem: Seq<char>, extension: Seq<char> },
}

/// Reads a part's content disposition. The reserved key is looked for first;
/// then a filename is required, and an extension in it.
pub open spec fn classify(header: Option<PartHeaderView>) -> PartKindView {
    match header {
        None => PartKindView::Refused {
            filename: Seq::empty(),
            error: UploadErrorView::MissingFilename,
        },
        Some(h) => if h.name == Some(reserved_key()) {
            PartKindView::Reserved
        } else {
            match h.filename {
                None => PartKindView::Refused {
                    filename: Seq::empty(),
                    error: UploadErrorView::MissingFilename,
                },
                Some(filename) => match extension_of(filename) {
                    None => PartKindView::Refused {
                        filename,
                        error: UploadErrorView::MissingExtension,
                    },
                    Some(extension) => PartKindView::File {
                        filename,
                        stem: stem_of(filename)->0,
                        extension,
                    },
                },
            }
        },
    }
}

/// An extension with the dot in front of it, as a row holds it.
pub open spec fn dotted(extension: Seq<char>) -> Seq<char> {
    seq!['.'] + extension
}

/// The row for a blob that was written.
pub open spec fn new_record(
    id: Seq<char>,
    file_name: Seq<char>,
    stem: Seq<char>,
    extension: Seq<char>,
) -> SoundRecordView {
    SoundRecordView {
        id,
        file_name,
        extension: dotted(extension),
        file_hash: placeholder_hash(),
        name: stem,
    }
}

/// The batch at its start.
pub open spec fn initial(audio_root: Seq<char>) -> UploadBatchView {
    UploadBatchView {
        audio_root,
        successful: Seq::empty(),
        failed: Seq::empty(),
        stage: UploadStageView::AwaitingPart,
    }
}

/// The report on what the batch has taken and refused so far.
pub open spec fn report_of(s: UploadBatchView) -> UploadResponseView {
    UploadResponseView { successful: s.successful, failed: s.failed, tags: Seq::empty() }
}

/// `s` with one more refused file, ready for the next part.
pub open spec fn with_failure(s: UploadBatchView, failure: UploadFailureView) -> UploadBatchView {
    UploadBatchView {
        failed: s.failed.push(failure),
        stage: UploadStageView::AwaitingPart,
        ..s
    }
}

/// `s` with one more stored file, ready for the next part.
pub open spec fn with_success(s: UploadBatchView, success: UploadSuccessView) -> UploadBatchView {
    UploadBatchView {
        successful: s.successful.push(success),
        stage: UploadStageView::AwaitingPart,
        ..s
    }
}

/// `s` at another stage.
pub open spec fn at_stage(s: UploadBatchView, stage: UploadStageView) -> UploadBatchView {
    UploadBatchView { stage, ..s }
}

/// The state that follows `s` when the outside world reports `e`. `fresh` is
/// an identifier drawn for this step; it is used where a part is accepted (it
/// names the blob) and where a blob is written (it becomes the row's key).
/// A report that the stage does not wait for changes nothing.
pub open spec fn next_state(s: UploadBatchView, e: UploadEventView, fresh: Seq<char>) -> UploadBatchView {
    match s.stage {
        UploadStageView::AwaitingPart => match e {
            UploadEventView::Part(header) => match classify(header) {
                PartKindView::Reserved => at_stage(s, UploadStageView::Finished),
                PartKindView::Refused { filename, error } => with_failure(
                    s,
                    failure_of(filename, error),
                ),
                PartKindView::File { filename, stem, extension } => at_stage(
                    s,
                    UploadStageView::StoringBlob { filename, file_name: fresh, stem, extension },
                ),
            },
            UploadEventView::EndOfStream => at_stage(s, UploadStageView::Finished),
            _ => s,
        },
        UploadStageView::StoringBlob { filename, file_name, stem, extension } => match e {
            UploadEventView::BlobStored => at_stage(
                s,
                UploadStageView::InsertingRecord {
                    filename,
                    record: new_record(fresh, file_name, stem, extension),
                },
            ),
            UploadEventView::BlobFailed(why) => with_failure(
                s,
                failure_of(filename, UploadErrorView::Io(why)),
            ),
            _ => s,
        },
        UploadStageView::InsertingRecord { filename, record } => match e {
            UploadEventView::RecordInserted => with_success(
                s,
                UploadSuccessView { id: record.id, filename },
            ),
            UploadEventView::InsertFailed(why) => with_failure(
                s,
                failure_of(filename, UploadErrorView::Storage(why)),
            ),
            _ => s,
        },
        UploadStageView::Finished => s,
    }
}

/// What a state waits for: the request that the outside world is to carry out.
pub open spec fn pending_action(s: UploadBatchView) -> UploadActionView {
    match s.stage {
        UploadStageView::AwaitingPart => UploadActionView::NextPart,
        UploadStageView::StoringBlob { filename, file_name, stem, extension } => {
            UploadActionView::StoreBlob {
                path: blob_path(s.audio_root, file_name, dotted(extension)),
            }
        },
        UploadStageView::InsertingRecord { filename, record } => UploadActionView::InsertRecord {
            record,
        },
        UploadStageView::Finished => UploadActionView::Respond { report: report_of(s) },
    }
}

/// One step of the pipeline: the next state, and the request it waits for.
pub open spec fn advance(s: UploadBatchView, e: UploadEventView, fresh: Seq<char>) -> (
    UploadBatchView,
    UploadActionView,
) {
    let next = next_state(s, e, fresh);
    (next, pending_action(next))
}

/// Whether a step may use the identifier it is given: every step that does
/// is among these.
pub open spec fn wants_identifier(s: UploadBatchView, e: UploadEventView) -> bool {
    match s.stage {
        UploadStageView::AwaitingPart => e is Part,
        UploadStageView::StoringBlob { .. } => e is BlobStored,
        _ => false,
    }
}

} // verus!
