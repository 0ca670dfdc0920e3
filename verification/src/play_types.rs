//! The values that pass between the playback dispatcher and whoever drives it.

use vstd::prelude::*;
use crate::catalog::{SoundRecord, SoundRecordView};

verus! {

/// The two ways in which a sound is delivered.
#[derive(Clone, Copy, Debug, PartialEq, Eq, Structural)]
pub enum Client {
    /// Into the voice session of the group.
    Discord,
    /// As an audio message into the conversation.
    Telegram,
}

/// How a request ended, as the boundary reports it.
#[derive(Clone, Copy, Debug, PartialEq, Eq, Structural)]
pub enum Status {
    /// The request was carried out; the boundary reports it as OK.
    Success,
    BadRequest,
    ExpectationFailed,
    InternalServerError,
}

/// Why a sound was not played.
#[derive(Clone, Copy, Debug, PartialEq, Eq, Structural)]
pub enum PlayError {
    /// The catalog has no row under the identifier.
    SoundNotFound,
    /// The catalog has the row, the disk has no blob for it.
    AudioFileMissing,
    /// The group has no voice session.
    NoActiveSession,
    /// The session registry was held by someone else and was not waited for.
    SessionBusy,
    /// The voice session could not decode the blob.
    DecodeError,
}

/// What was fixed when the process started.
#[derive(Debug, PartialEq, Eq)]
pub struct DispatchConfig {
    /// The directory under which blobs lie.
    pub audio_root: String,
    /// The group whose voice session plays sounds.
    pub guild_id: u64,
    /// The conversation that receives sounds as messages.
    pub chat_id: i64,
}

/// `DispatchConfig` as contracts speak of it: every text by its characters.
pub struct DispatchConfigView {
    pub audio_root: Seq<char>,
    pub guild_id: u64,
    pub chat_id: i64,
}

impl View for DispatchConfig {
    type V = DispatchConfigView;

    open spec fn view(&self) -> DispatchConfigView {
        DispatchConfigView {
            audio_root: self.audio_root@,
            guild_id: self.guild_id,
            chat_id: self.chat_id,
        }
    }
}

/// A request to play a sound.
#[derive(Debug, PartialEq, Eq)]
pub struct PlaySoundPayload {
    pub sound_id: String,
    pub client: Client,
}

/// `PlaySoundPayload` as contracts speak of it: every text by its characters.
pub struct PlaySoundPayloadView {
    pub sound_id: Seq<char>,
    pub client: Client,
}

impl View for PlaySoundPayload {
    type V = PlaySoundPayloadView;

    open spec fn view(&self) -> PlaySoundPayloadView {
        PlaySoundPayloadView { sound_id: self.sound_id@, client: self.client }
    }
}

/// The confirmation that a sound was handed to its backend.
#[derive(Debug, PartialEq, Eq)]
pub struct PlaySoundResponse {
    pub sound_id: String,
    pub client: Client,
}

/// `PlaySoundResponse` as contracts speak of it: every text by its characters.
pub struct PlaySoundResponseView {
    pub sound_id: Seq<char>,
    pub client: Client,
}

impl View for PlaySoundResponse {
    type V = PlaySoundResponseView;

    open spec fn view(&self) -> PlaySoundResponseView {
        PlaySoundResponseView { sound_id: self.sound_id@, client: self.client }
    }
}

/// What a failed request is answered with.
#[derive(Debug, PartialEq, Eq)]
pub struct ErrorPayload {
    pub message: String,
}

/// `ErrorPayload` as contracts speak of it: every text by its characters.
pub struct ErrorPayloadView {
    pub message: Seq<char>,
}

impl View for ErrorPayload {
    type V = ErrorPayloadView;

    open spec fn view(&self) -> ErrorPayloadView {
        ErrorPayloadView { message: self.message@ }
    }
}

/// The body of the answer to a play request.
#[derive(Debug, PartialEq, Eq)]
pub enum PlayBody {
    Confirmation(PlaySoundResponse),
    Error(ErrorPayload),
}

/// `PlayBody` as contracts speak of it: every text by its characters.
pub enum PlayBodyView {
    Confirmation(PlaySoundResponseView),
    Error(ErrorPayloadView),
}

impl View for PlayBody {
    type V = PlayBodyView;

    open spec fn view(&self) -> PlayBodyView {
        match self {
            PlayBody::Confirmation(c) => PlayBodyView::Confirmation(c@),
            PlayBody::Error(e) => PlayBodyView::Error(e@),
        }
    }
}

/// The answer to a play request.
#[derive(Debug, PartialEq, Eq)]
pub struct PlayReply {
    pub status: Status,
    pub body: PlayBody,
}

/// `PlayReply` as contracts speak of it: every text by its characters.
pub struct PlayReplyView {
    pub status: Status,
    pub body: PlayBodyView,
}

impl View for PlayReply {
    type V = PlayReplyView;

    open spec fn view(&self) -> PlayReplyView {
        PlayReplyView { status: self.status, body: self.body@ }
    }
}

/// What a look into the session registry found.
#[derive(Clone, Copy, Debug, PartialEq, Eq, Structural)]
pub enum SessionProbe {
    /// The group has a voice session.
    Established,
    /// The group has none.
    Absent,
    /// The registry was held by someone else and was not waited for.
    Busy,
}

/// The view of a row that a lookup may have found.
pub open spec fn record_opt(o: Option<SoundRecord>) -> Option<SoundRecordView> {
    match o {
        Some(r) => Some(r@),
        None => None,
    }
}

/// What the outside world reports to the dispatcher.
#[derive(Debug, PartialEq, Eq)]
pub enum PlayEvent {
    /// The catalog was asked for the row.
    Lookup(Option<SoundRecord>),
    /// The disk was asked whether the blob is there.
    BlobChecked(bool),
    /// The session registry was asked for the group's session.
    SessionProbed(SessionProbe),
    /// The backend took what was handed to it.
    Delivered,
    /// The backend did not; the text says why.
    DeliveryFailed(String),
}

/// `PlayEvent` as contracts speak of it: every text by its characters.
pub enum PlayEventView {
    Lookup(Option<SoundRecordView>),
    BlobChecked(bool),
    SessionProbed(SessionProbe),
    Delivered,
    DeliveryFailed(Seq<char>),
}

impl View for PlayEvent {
    type V = PlayEventView;

    open spec fn view(&self) -> PlayEventView {
        match self {
            PlayEvent::Lookup(found) => PlayEventView::Lookup(record_opt(*found)),
            PlayEvent::BlobChecked(exists) => PlayEventView::BlobChecked(*exists),
            PlayEvent::SessionProbed(probe) => PlayEventView::SessionProbed(*probe),
            PlayEvent::Delivered => PlayEventView::Delivered,
            PlayEvent::DeliveryFailed(why) => PlayEventView::DeliveryFailed(why@),
        }
    }
}

/// What the dispatcher asks the outside world to do next.
#[derive(Debug, PartialEq, Eq)]
pub enum PlayAction {
    /// Look the row up in the catalog.
    FetchRecord { sound_id: String },
    /// See whether a file lies at `path`.
    CheckBlob { path: String },
    /// Look for the group's voice session, without waiting for the registry.
    ProbeSession { guild_id: u64 },
    /// Hand the blob to the group's voice session, to be encoded at `bitrate`
    /// bits per second and played, and wait until the session has taken it.
    PlayInSession { guild_id: u64, path: String, record: SoundRecord, bitrate: u32 },
    /// Send the blob into the conversation as an audio file named `file_name`.
    SendAudio { chat_id: i64, path: String, file_name: String },
    /// Answer the request; the dispatch is over.
    Respond { reply: PlayReply },
}

/// `PlayAction` as contracts speak of it: every text by its characters.
pub enum PlayActionView {
    FetchRecord { sound_id: Seq<char> },
    CheckBlob { path: Seq<char> },
    ProbeSession { guild_id: u64 },
    PlayInSession { guild_id: u64, path: Seq<char>, record: SoundRecordView, bitrate: u32 },
    SendAudio { chat_id: i64, path: Seq<char>, file_name: Seq<char> },
    Respond { reply: PlayReplyView },
}

impl View for PlayAction {
    type V = PlayActionView;

    open spec fn view(&self) -> PlayActionView {
        match self {
            PlayAction::FetchRecord { sound_id } => PlayActionView::FetchRecord {
                sound_id: sound_id@,
            },
            PlayAction::CheckBlob { path } => PlayActionView::CheckBlob { path: path@ },
            PlayAction::ProbeSession { guild_id } => PlayActionView::ProbeSession {
                guild_id: *guild_id,
            },
            PlayAction::PlayInSession {
                guild_id,
                path,
                record,
                bitrate,
            } => PlayActionView::PlayInSession {
                guild_id: *guild_id,
                path: path@,
                record: record@,
                bitrate: *bitrate,
            },
            PlayAction::SendAudio { chat_id, path, file_name } => PlayActionView::SendAudio {
                chat_id: *chat_id,
                path: path@,
                file_name: file_name@,
            },
            PlayAction::Respond { reply } => PlayActionView::Respond { reply: reply@ },
        }
    }
}

/// Where a play request stands.
#[derive(Debug, PartialEq, Eq)]
pub enum PlayStage {
    /// The request came in; the catalog is being asked.
    Received,
    /// The row is known; the disk is being asked for its blob.
    Resolved { record: SoundRecord, path: String },
    /// The blob is there; the registry is being asked for the voice session.
    Located { record: SoundRecord, path: String },
    /// The blob was handed to the backend, which has not answered yet.
    Dispatched { record: SoundRecord, path: String },
    /// The request is answered.
    Closed { reply: PlayReply },
}

/// `PlayStage` as contracts speak of it: every text by its characters.
pub enum PlayStageView {
    Received,
    Resolved { record: SoundRecordView, path: Seq<char> },
    Located { record: SoundRecordView, path: Seq<char> },
    Dispatched { record: SoundRecordView, path: Seq<char> },
    Closed { reply: PlayReplyView },
}

impl View for PlayStage {
    type V = PlayStageView;

    open spec fn view(&self) -> PlayStageView {
        match self {
            PlayStage::Received => PlayStageView::Received,
            PlayStage::Resolved { record, path } => PlayStageView::Resolved {
                record: record@,
                path: path@,
            },
            PlayStage::Located { record, path } => PlayStageView::Located {
                record: record@,
                path: path@,
            },
            PlayStage::Dispatched { record, path } => PlayStageView::Dispatched {
                record: record@,
                path: path@,
            },
            PlayStage::Closed { reply } => PlayStageView::Closed { reply: reply@ },
        }
    }
}

/// One play request in progress.
#[derive(Debug, PartialEq, Eq)]
pub struct PlayDispatch {
    pub audio_root: String,
    pub guild_id: u64,
    pub chat_id: i64,
    pub sound_id: String,
    pub client: Client,
    pub stage: PlayStage,
}

/// `PlayDispatch` as contracts speak of it: every text by its characters.
pub struct PlayDispatchView {
    pub audio_root: Seq<char>,
    pub guild_id: u64,
    pub chat_id: i64,
    pub sound_id: Seq<char>,
    pub client: Client,
    pub stage: PlayStageView,
}

impl View for PlayDispatch {
    type V = PlayDispatchView;

    open spec fn view(&self) -> PlayDispatchView {
        PlayDispatchView {
            audio_root: self.audio_root@,
            guild_id: self.guild_id,
            chat_id: self.chat_id,
            sound_id: self.sound_id@,
            client: self.client,
            stage: self.stage@,
        }
    }
}

} // verus!
