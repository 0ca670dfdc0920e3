//! The values that pass between the upload pipeline and whoever drives it.

use vstd::prelude::*;
use crate::catalog::{SoundRecord, SoundRecordView};

verus! {

/// The view of an optional text.
pub open spec fn text_opt(o: Option<String>) -> Option<Seq<char>> {
    match o {
        Some(s) => Some(s@),
        None => None,
    }
}

/// The content disposition of one part of a multipart body.
#[derive(Debug, PartialEq, Eq)]
pub struct PartHeader {
    /// The form field's key.
    pub name: Option<String>,
    /// The name under which the file was uploaded.
    pub filename: Option<String>,
}

/// `PartHeader` as contracts speak of it: every text by its characters.
pub struct PartHeaderView {
    pub name: Option<Seq<char>>,
    pub filename: Option<Seq<char>>,
}

impl View for PartHeader {
    type V = PartHeaderView;

    open spec fn view(&self) -> PartHeaderView {
        PartHeaderView { name: text_opt(self.name), filename: text_opt(self.filename) }
    }
}

/// The view of a part's content disposition, which the part may lack.
pub open spec fn header_opt(o: Option<PartHeader>) -> Option<PartHeaderView> {
    match o {
        Some(h) => Some(h@),
        None => None,
    }
}

/// Why one file of a batch was not taken.
#[derive(Debug, PartialEq, Eq)]
pub enum UploadError {
    /// The part carries no content disposition, or one without a filename.
    MissingFilename,
    /// The filename has no extension.
    MissingExtension,
    /// The blob could not be created or written; the text says why.
    Io(String),
    /// The catalog did not take the row; the text says why.
    Storage(String),
}

/// `UploadError` as contracts speak of it: every text by its characters.
pub enum UploadErrorView {
    MissingFilename,
    MissingExtension,
    Io(Seq<char>),
    Storage(Seq<char>),
}

impl View for UploadError {
    type V = UploadErrorView;

    open spec fn view(&self) -> UploadErrorView {
        match self {
            UploadError::MissingFilename => UploadErrorView::MissingFilename,
            UploadError::MissingExtension => UploadErrorView::MissingExtension,
            UploadError::Io(why) => UploadErrorView::Io(why@),
            UploadError::Storage(why) => UploadErrorView::Storage(why@),
        }
    }
}

/// A file that was stored and catalogued.
#[derive(Debug, PartialEq, Eq)]
pub struct UploadSuccess {
    /// The key of its catalog row.
    pub id: String,
    /// The name under which it was uploaded.
    pub filename: String,
}

/// `UploadSuccess` as contracts speak of it: every text by its characters.
pub struct UploadSuccessView {
    pub id: Seq<char>,
    pub filename: Seq<char>,
}

impl View for UploadSuccess {
    type V = UploadSuccessView;

    open spec fn view(&self) -> UploadSuccessView {
        UploadSuccessView { id: self.id@, filename: self.filename@ }
    }
}

/// A file that was not taken.
#[derive(Debug, PartialEq, Eq)]
pub struct UploadFailure {
    /// The name under which it was uploaded; empty where it had none.
    pub filename: String,
    /// Why it was not taken, in words.
    pub reason: String,
}

/// `UploadFailure` as contracts speak of it: every text by its characters.
pub struct UploadFailureView {
    pub filename: Seq<char>,
    pub reason: Seq<char>,
}

impl View for UploadFailure {
    type V = UploadFailureView;

    open spec fn view(&self) -> UploadFailureView {
        UploadFailureView { filename: self.filename@, reason: self.reason@ }
    }
}

/// The entries of `v`, each by its view.
pub open spec fn successes_view(v: Seq<UploadSuccess>) -> Seq<UploadSuccessView> {
    v.map_values(|s: UploadSuccess| s@)
}

/// The entries of `v`, each by its view.
pub open spec fn failures_view(v: Seq<UploadFailure>) -> Seq<UploadFailureView> {
    v.map_values(|f: UploadFailure| f@)
}

/// The texts of `v`, each by its view.
pub open spec fn texts_view(v: Seq<String>) -> Seq<Seq<char>> {
    v.map_values(|s: String| s@)
}

/// The report on one batch: what was taken, what was not, both in the order
/// of the stream.
#[derive(Debug, PartialEq, Eq)]
pub struct UploadResponse {
    pub successful: Vec<UploadSuccess>,
    pub failed: Vec<UploadFailure>,
    /// Reserved; always empty.
    pub tags: Vec<String>,
}

/// `UploadResponse` as contracts speak of it: every text by its characters.
pub struct UploadResponseView {
    pub successful: Seq<UploadSuccessView>,
    pub failed: Seq<UploadFailureView>,
    pub tags: Seq<Seq<char>>,
}

impl View for UploadResponse {
    type V = UploadResponseView;

    open spec fn view(&self) -> UploadResponseView {
        UploadResponseView {
            successful: successes_view(self.successful@),
            failed: failures_view(self.failed@),
            tags: texts_view(self.tags@),
        }
    }
}

/// What the outside world reports to the pipeline.
#[derive(Debug, PartialEq, Eq)]
pub enum UploadEvent {
    /// The stream yielded a part, with this content disposition if it has one.
    Part(Option<PartHeader>),
    /// The part's chunks were all written to the blob.
    BlobStored,
    /// Creating or writing the blob, or reading a chunk, failed.
    BlobFailed(String),
    /// The catalog took the row.
    RecordInserted,
    /// The catalog refused the row.
    InsertFailed(String),
    /// The stream has no further part.
    EndOfStream,
}

/// `UploadEvent` as contracts speak of it: every text by its characters.
pub enum UploadEventView {
    Part(Option<PartHeaderView>),
    BlobStored,
    BlobFailed(Seq<char>),
    RecordInserted,
    InsertFailed(Seq<char>),
    EndOfStream,
}

impl View for UploadEvent {
    type V = UploadEventView;

    open spec fn view(&self) -> UploadEventView {
        match self {
            UploadEvent::Part(h) => UploadEventView::Part(header_opt(*h)),
            UploadEvent::BlobStored => UploadEventView::BlobStored,
            UploadEvent::BlobFailed(why) => UploadEventView::BlobFailed(why@),
            UploadEvent::RecordInserted => UploadEventView::RecordInserted,
            UploadEvent::InsertFailed(why) => UploadEventView::InsertFailed(why@),
            UploadEvent::EndOfStream => UploadEventView::EndOfStream,
        }
    }
}

/// What the pipeline asks the outside world to do next.
#[derive(Debug, PartialEq, Eq)]
pub enum UploadAction {
    /// Read the next part of the stream.
    NextPart,
    /// Create the file at `path` and write the current part's chunks to it, in
    /// the order of the stream.
    StoreBlob { path: String },
    /// Insert the row into the catalog.
    InsertRecord { record: SoundRecord },
    /// Answer the request with the report; the batch is over.
    Respond { report: UploadResponse },
}

/// `UploadAction` as contracts speak of it: every text by its characters.
pub enum UploadActionView {
    NextPart,
    StoreBlob { path: Seq<char> },
    InsertRecord { record: SoundRecordView },
    Respond { report: UploadResponseView },
}

impl View for UploadAction {
    type V = UploadActionView;

    open spec fn view(&self) -> UploadActionView {
        match self {
            UploadAction::NextPart => UploadActionView::NextPart,
            UploadAction::StoreBlob { path } => UploadActionView::StoreBlob { path: path@ },
            UploadAction::InsertRecord { record } => UploadActionView::InsertRecord {
                record: record@,
            },
            UploadAction::Respond { report } => UploadActionView::Respond { report: report@ },
        }
    }
}

/// Where the pipeline stands within the batch.
#[derive(Debug, PartialEq, Eq)]
pub enum UploadStage {
    /// Between parts.
    AwaitingPart,
    /// A part was accepted and its blob is being written.
    StoringBlob { filename: String, file_name: String, stem: String, extension: String },
    /// The blob is written and its row is being inserted.
    InsertingRecord { filename: String, record: SoundRecord },
    /// The report was handed out.
    Finished,
}

/// `UploadStage` as contracts speak of it: every text by its characters.
pub enum UploadStageView {
    AwaitingPart,
    StoringBlob {
        filename: Seq<char>,
        file_name: Seq<char>,
        stem: Seq<char>,
        extension: Seq<char>,
    },
    InsertingRecord { filename: Seq<char>, record: SoundRecordView },
    Finished,
}

impl View for UploadStage {
    type V = UploadStageView;

    open spec fn view(&self) -> UploadStageView {
        match self {
            UploadStage::AwaitingPart => UploadStageView::AwaitingPart,
            UploadStage::StoringBlob {
                filename,
                file_name,
                stem,
                extension,
            } => UploadStageView::StoringBlob {
                filename: filename@,
                file_name: file_name@,
                stem: stem@,
                extension: extension@,
            },
            UploadStage::InsertingRecord { filename, record } => UploadStageView::InsertingRecord {
                filename: filename@,
                record: record@,
            },
            UploadStage::Finished => UploadStageView::Finished,
        }
    }
}

/// One upload request in progress.
#[derive(Debug, PartialEq, Eq)]
pub struct UploadBatch {
    /// The directory under which blobs are written.
    pub audio_root: String,
    pub successful: Vec<UploadSuccess>,
    pub failed: Vec<UploadFailure>,
    pub stage: UploadStage,
}

/// `UploadBatch` as contracts speak of it: every text by its characters.
pub struct UploadBatchView {
    pub audio_root: Seq<char>,
    pub successful: Seq<UploadSuccessView>,
    pub failed: Seq<UploadFailureView>,
    pub stage: UploadStageView,
}

impl View for UploadBatch {
    type V = UploadBatchView;

    open spec fn view(&self) -> UploadBatchView {
        UploadBatchView {
            audio_root: self.audio_root@,
            successful: successes_view(self.successful@),
            failed: failures_view(self.failed@),
            stage: self.stage@,
        }
    }
}

} // verus!
