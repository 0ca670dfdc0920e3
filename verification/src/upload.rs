//! The upload pipeline: it reads what the outside world reports about one
//! multipart request, part by part, and says what is to be done next.

use vstd::prelude::*;
use crate::blob::blob_path_for;
use crate::catalog::SoundRecord;
use crate::filename::split_name;
use crate::ident::{fresh_identifier, is_identifier_text};
use crate::text::{join2, same_text};
use crate::upload_model::{
    advance, at_stage, classify, failure_of, initial, new_record, next_state, pending_action,
    reason_of, report_of, wants_identifier, with_failure, PartKindView,
};
use crate::upload_types::{
    failures_view, header_opt, successes_view, PartHeader, UploadAction, UploadBatch,
    UploadError, UploadEvent, UploadFailure, UploadResponse, UploadStage, UploadSuccess,
};

verus! {

/// What the pipeline makes of a part before anything is written.
#[derive(Debug, PartialEq, Eq)]
pub enum PartKind {
    /// The part stands under the reserved key.
    Reserved,
    /// The part is refused.
    Refused { filename: String, error: UploadError },
    /// The part is a file to store.
    File { filename: String, stem: String, extension: String },
}

impl View for PartKind {
    type V = PartKindView;

    open spec fn view(&self) -> PartKindView {
        match self {
            PartKind::Reserved => PartKindView::Reserved,
            PartKind::Refused { filename, error } => PartKindView::Refused {
                filename: filename@,
                error: error@,
            },
            PartKind::File { filename, stem, extension } => PartKindView::File {
                filename: filename@,
                stem: stem@,
                extension: extension@,
            },
        }
    }
}

impl UploadError {
    /// The words in which the failure is reported.
    pub fn reason(&self) -> (text: String)
        ensures
            text@ == reason_of(self@),
    {
        match self {
            UploadError::MissingFilename => "Uploaded part carries no filename.".to_owned(),
            UploadError::MissingExtension => "Uploaded file name has no extension.".to_owned(),
            UploadError::Io(why) => why.clone(),
            UploadError::Storage(why) => why.clone(),
        }
    }
}

impl UploadFailure {
    /// The report entry for the file `filename`, which was not taken because of `error`.
    pub fn new(filename: String, error: &UploadError) -> (failure: UploadFailure)
        ensures
            failure@ == failure_of(filename@, error@),
    {
        UploadFailure { filename, reason: error.reason() }
    }
}

impl Clone for UploadSuccess {
    fn clone(&self) -> (r: Self)
        ensures
            r@ == self@,
    {
        UploadSuccess { id: self.id.clone(), filename: self.filename.clone() }
    }
}

impl Clone for UploadFailure {
    fn clone(&self) -> (r: Self)
        ensures
            r@ == self@,
    {
        UploadFailure { filename: self.filename.clone(), reason: self.reason.clone() }
    }
}

/// Reads a part's content disposition.
pub fn classify_part(header: Option<PartHeader>) -> (kind: PartKind)
    ensures
        kind@ == classify(header_opt(header)),
{
    match header {
        None => PartKind::Refused { filename: String::new(), error: UploadError::MissingFilename },
        Some(h) => {
            let reserved = match &h.name {
                Some(name) => same_text(name.as_str(), "tags"),
                None => false,
            };
            if reserved {
                return PartKind::Reserved;
            }
            match h.filename {
                None => PartKind::Refused {
                    filename: String::new(),
                    error: UploadError::MissingFilename,
                },
                Some(filename) => match split_name(filename.as_str()) {
                    None => PartKind::Refused { filename, error: UploadError::MissingExtension },
                    Some(parts) => PartKind::File {
                        filename,
                        stem: parts.stem,
                        extension: parts.extension,
                    },
                },
            }
        },
    }
}

/// The row for a blob that was written under `file_name`: keyed by `id`,
/// named after the stem, with the dot put before the extension.
pub fn build_record(id: String, file_name: String, stem: String, extension: &str) -> (record:
    SoundRecord)
    ensures
        record@ == new_record(id@, file_name@, stem@, extension@),
{
    proof {
        reveal_strlit(".");
        assert("."@ =~= seq!['.']);
    }
    SoundRecord {
        id,
        file_name,
        extension: join2(".", extension),
        file_hash: "hash".to_owned(),
        name: stem,
    }
}

fn clone_successes(v: &Vec<UploadSuccess>) -> (r: Vec<UploadSuccess>)
    ensures
        successes_view(r@) == successes_view(v@),
{
    let mut r: Vec<UploadSuccess> = Vec::new();
    let mut i: usize = 0;
    while i < v.len()
        invariant
            i <= v.len(),
            r.len() == i,
            forall|j: int| 0 <= j < i ==> r@[j]@ == v@[j]@,
        decreases v.len() - i,
    {
        r.push(v[i].clone());
        i = i + 1;
    }
    assert(successes_view(r@) =~= successes_view(v@));
    r
}

fn clone_failures(v: &Vec<UploadFailure>) -> (r: Vec<UploadFailure>)
    ensures
        failures_view(r@) == failures_view(v@),
{
    let mut r: Vec<UploadFailure> = Vec::new();
    let mut i: usize = 0;
    while i < v.len()
        invariant
            i <= v.len(),
            r.len() == i,
            forall|j: int| 0 <= j < i ==> r@[j]@ == v@[j]@,
        decreases v.len() - i,
    {
        r.push(v[i].clone());
        i = i + 1;
    }
    assert(failures_view(r@) =~= failures_view(v@));
    r
}

impl UploadBatch {
    /// A batch at its start: nothing taken, nothing refused, waiting for the first part.
    pub fn new(audio_root: String) -> (batch: UploadBatch)
        ensures
            batch@ == initial(audio_root@),
    {
        let batch = UploadBatch {
            audio_root,
            successful: Vec::new(),
            failed: Vec::new(),
            stage: UploadStage::AwaitingPart,
        };
        assert(batch@.successful =~= Seq::empty());
        assert(batch@.failed =~= Seq::empty());
        batch
    }

    /// The report on what was taken and refused so far.
    pub fn report(&self) -> (report: UploadResponse)
        ensures
            report@ == report_of(self@),
    {
        let report = UploadResponse {
            successful: clone_successes(&self.successful),
            failed: clone_failures(&self.failed),
            tags: Vec::new(),
        };
        assert(report@.tags =~= Seq::empty());
        report
    }

    /// The request that the batch waits for.
    pub fn pending(&self) -> (action: UploadAction)
        ensures
            action@ == pending_action(self@),
    {
        match &self.stage {
            UploadStage::AwaitingPart => UploadAction::NextPart,
            UploadStage::StoringBlob { filename: _, file_name, stem: _, extension } => {
                proof {
                    reveal_strlit(".");
                    assert("."@ =~= seq!['.']);
                }
                let dotted = join2(".", extension.as_str());
                UploadAction::StoreBlob {
                    path: blob_path_for(
                        self.audio_root.as_str(),
                        file_name.as_str(),
                        dotted.as_str(),
                    ),
                }
            },
            UploadStage::InsertingRecord { filename: _, record } => UploadAction::InsertRecord {
                record: record.clone(),
            },
            UploadStage::Finished => UploadAction::Respond { report: self.report() },
        }
    }

    /// Records a refused file and waits for the next part.
    fn refuse(self, filename: String, error: UploadError) -> (next: UploadBatch)
        ensures
            next@ == with_failure(self@, failure_of(filename@, error@)),
    {
        let ghost before = self@;
        let UploadBatch { audio_root, successful, mut failed, stage: _ } = self;
        let failure = UploadFailure::new(filename, &error);
        failed.push(failure);
        let next = UploadBatch { audio_root, successful, failed, stage: UploadStage::AwaitingPart };
        assert(next@.failed =~= before.failed.push(failure@));
        next
    }

    /// Moves to `stage`, with the lists as they are.
    fn at(self, stage: UploadStage) -> (next: UploadBatch)
        ensures
            next@ == at_stage(self@, stage@),
    {
        let UploadBatch { audio_root, successful, failed, stage: _ } = self;
        UploadBatch { audio_root, successful, failed, stage }
    }

    /// The state that follows when the outside world reports `event`, with
    /// `fresh` as the identifier drawn for this step.
    pub fn apply(self, event: UploadEvent, fresh: String) -> (next: UploadBatch)
        ensures
            next@ == next_state(self@, event@, fresh@),
    {
        let ghost before = self@;
        let UploadBatch { audio_root, mut successful, failed, stage } = self;
        match stage {
            UploadStage::AwaitingPart => {
                let batch = UploadBatch {
                    audio_root,
                    successful,
                    failed,
                    stage: UploadStage::AwaitingPart,
                };
                match event {
                    UploadEvent::Part(header) => match classify_part(header) {
                        PartKind::Reserved => batch.at(UploadStage::Finished),
                        PartKind::Refused { filename, error } => batch.refuse(filename, error),
                        PartKind::File { filename, stem, extension } => batch.at(
                            UploadStage::StoringBlob { filename, file_name: fresh, stem, extension },
                        ),
                    },
                    UploadEvent::EndOfStream => batch.at(UploadStage::Finished),
                    _ => batch,
                }
            },
            UploadStage::StoringBlob { filename, file_name, stem, extension } => match event {
                UploadEvent::BlobStored => {
                    let record = build_record(fresh, file_name, stem, extension.as_str());
                    UploadBatch {
                        audio_root,
                        successful,
                        failed,
                        stage: UploadStage::InsertingRecord { filename, record },
                    }
                },
                UploadEvent::BlobFailed(why) => {
                    let batch = UploadBatch {
                        audio_root,
                        successful,
                        failed,
                        stage: UploadStage::AwaitingPart,
                    };
                    batch.refuse(filename, UploadError::Io(why))
                },
                _ => UploadBatch {
                    audio_root,
                    successful,
                    failed,
                    stage: UploadStage::StoringBlob { filename, file_name, stem, extension },
                },
            },
            UploadStage::InsertingRecord { filename, record } => match event {
                UploadEvent::RecordInserted => {
                    let success = UploadSuccess { id: record.id, filename };
                    successful.push(success);
                    let next = UploadBatch {
                        audio_root,
                        successful,
                        failed,
                        stage: UploadStage::AwaitingPart,
                    };
                    assert(next@.successful =~= before.successful.push(success@));
                    next
                },
                UploadEvent::InsertFailed(why) => {
                    let batch = UploadBatch {
                        audio_root,
                        successful,
                        failed,
                        stage: UploadStage::AwaitingPart,
                    };
                    batch.refuse(filename, UploadError::Storage(why))
                },
                _ => UploadBatch {
                    audio_root,
                    successful,
                    failed,
                    stage: UploadStage::InsertingRecord { filename, record },
                },
            },
            UploadStage::Finished => UploadBatch {
                audio_root,
                successful,
                failed,
                stage: UploadStage::Finished,
            },
        }
    }

    /// One step of the pipeline with a given identifier: the next state, and
    /// the request it waits for.
    pub fn advance(self, event: UploadEvent, fresh: String) -> (r: (UploadBatch, UploadAction))
        ensures
            (r.0@, r.1@) == advance(self@, event@, fresh@),
    {
        let next = self.apply(event, fresh);
        let action = next.pending();
        (next, action)
    }

    /// Whether a step from this state on `event` may use a fresh identifier.
    pub fn wants_identifier(&self, event: &UploadEvent) -> (r: bool)
        ensures
            r == wants_identifier(self@, event@),
    {
        match &self.stage {
            UploadStage::AwaitingPart => match event {
                UploadEvent::Part(_) => true,
                _ => false,
            },
            UploadStage::StoringBlob { .. } => match event {
                UploadEvent::BlobStored => true,
                _ => false,
            },
            _ => false,
        }
    }

    /// One step of the pipeline. Where the step may use an identifier, one is
    /// drawn at random; the result is that of `advance` with it, whichever it is.
    pub fn step(self, event: UploadEvent) -> (r: (UploadBatch, UploadAction))
        ensures
            exists|fresh: Seq<char>|
                (wants_identifier(self@, event@) ==> is_identifier_text(fresh)) && (r.0@, r.1@)
                    == #[trigger] advance(self@, event@, fresh),
    {
        let fresh = if self.wants_identifier(&event) {
            fresh_identifier()
        } else {
            String::new()
        };
        let r = self.advance(event, fresh);
        assert((r.0@, r.1@) == advance(self@, event@, fresh@));
        r
    }
}

} // verus!
