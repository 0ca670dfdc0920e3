//! The playback dispatcher: it resolves a sound to its blob, sends it to the
//! backend that the request names, and answers the request.

use vstd::prelude::*;
use crate::blob::path_for;
use crate::play_model::{
    advance, at_stage, confirmation, failure_reply, initial, message_of, next_stage,
    next_state, pending_action, status_of, VOICE_BITRATE,
};
use crate::play_types::{
    Client, DispatchConfig, ErrorPayload, PlayAction, PlayBody, PlayDispatch, PlayError,
    PlayEvent, PlayReply, PlaySoundPayload, PlaySoundResponse, PlayStage, SessionProbe, Status,
};
use crate::text::join2;

verus! {

impl PlayError {
    /// The status under which the failure is reported.
    pub fn status(self) -> (status: Status)
        ensures
            status == status_of(self),
    {
        match self {
            PlayError::SoundNotFound => Status::ExpectationFailed,
            PlayError::AudioFileMissing => Status::InternalServerError,
            PlayError::NoActiveSession => Status::BadRequest,
            PlayError::SessionBusy => Status::InternalServerError,
            PlayError::DecodeError => Status::InternalServerError,
        }
    }

    /// The message with which the failure is reported for the sound `sound_id`.
    pub fn message(self, sound_id: &str) -> (message: String)
        ensures
            message@ == message_of(self, sound_id@),
    {
        match self {
            PlayError::SoundNotFound => join2("Failed to find sound with id: ", sound_id),
            PlayError::AudioFileMissing => join2("Audio is missing for sound with id: ", sound_id),
            PlayError::NoActiveSession => "Bot has to join a voice channel first.".to_owned(),
            PlayError::SessionBusy => "Voice session is busy, try again.".to_owned(),
            PlayError::DecodeError => join2(
                "Failed to decode audio for sound with id: ",
                sound_id,
            ),
        }
    }
}

impl Clone for PlayReply {
    fn clone(&self) -> (r: Self)
        ensures
            r@ == self@,
    {
        let body = match &self.body {
            PlayBody::Confirmation(c) => PlayBody::Confirmation(
                PlaySoundResponse { sound_id: c.sound_id.clone(), client: c.client },
            ),
            PlayBody::Error(e) => PlayBody::Error(ErrorPayload { message: e.message.clone() }),
        };
        PlayReply { status: self.status, body }
    }
}

impl PlayReply {
    /// The answer to a request for `sound_id` that failed with `error`.
    pub fn failure(error: PlayError, sound_id: &str) -> (reply: PlayReply)
        ensures
            reply@ == failure_reply(error, sound_id@),
    {
        PlayReply {
            status: error.status(),
            body: PlayBody::Error(ErrorPayload { message: error.message(sound_id) }),
        }
    }

    /// The answer to a request whose sound was handed to its backend.
    pub fn confirmation(sound_id: &str, client: Client) -> (reply: PlayReply)
        ensures
            reply@ == confirmation(sound_id@, client),
    {
        PlayReply {
            status: Status::Success,
            body: PlayBody::Confirmation(
                PlaySoundResponse { sound_id: sound_id.to_owned(), client },
            ),
        }
    }
}

impl PlayDispatch {
    /// A request as it comes in.
    pub fn new(config: &DispatchConfig, request: PlaySoundPayload) -> (dispatch: PlayDispatch)
        ensures
            dispatch@ == initial(config@, request@),
    {
        PlayDispatch {
            audio_root: config.audio_root.clone(),
            guild_id: config.guild_id,
            chat_id: config.chat_id,
            sound_id: request.sound_id,
            client: request.client,
            stage: PlayStage::Received,
        }
    }

    /// The request that the dispatch waits for.
    pub fn pending(&self) -> (action: PlayAction)
        ensures
            action@ == pending_action(self@),
    {
        match &self.stage {
            PlayStage::Received => PlayAction::FetchRecord { sound_id: self.sound_id.clone() },
            PlayStage::Resolved { record: _, path } => PlayAction::CheckBlob { path: path.clone() },
            PlayStage::Located { record: _, path: _ } => PlayAction::ProbeSession {
                guild_id: self.guild_id,
            },
            PlayStage::Dispatched { record, path } => match self.client {
                Client::Discord => PlayAction::PlayInSession {
                    guild_id: self.guild_id,
                    path: path.clone(),
                    record: record.clone(),
                    bitrate: VOICE_BITRATE,
                },
                Client::Telegram => PlayAction::SendAudio {
                    chat_id: self.chat_id,
                    path: path.clone(),
                    file_name: record.name.clone(),
                },
            },
            PlayStage::Closed { reply } => PlayAction::Respond { reply: reply.clone() },
        }
    }

    /// The stage that follows `stage` when the outside world reports `event`.
    /// The stage that `self` holds is not looked at.
    fn next_stage(&self, stage: PlayStage, event: PlayEvent) -> (next: PlayStage)
        ensures
            next@ == next_stage(at_stage(self@, stage@), event@),
    {
        let sound_id = self.sound_id.as_str();
        match stage {
            PlayStage::Received => match event {
                PlayEvent::Lookup(Some(record)) => {
                    let path = path_for(self.audio_root.as_str(), &record);
                    PlayStage::Resolved { record, path }
                },
                PlayEvent::Lookup(None) => PlayStage::Closed {
                    reply: PlayReply::failure(PlayError::SoundNotFound, sound_id),
                },
                _ => PlayStage::Received,
            },
            PlayStage::Resolved { record, path } => match event {
                PlayEvent::BlobChecked(exists) => {
                    if !exists {
                        PlayStage::Closed {
                            reply: PlayReply::failure(PlayError::AudioFileMissing, sound_id),
                        }
                    } else {
                        match self.client {
                            Client::Discord => PlayStage::Located { record, path },
                            Client::Telegram => PlayStage::Dispatched { record, path },
                        }
                    }
                },
                _ => PlayStage::Resolved { record, path },
            },
            PlayStage::Located { record, path } => match event {
                PlayEvent::SessionProbed(probe) => match probe {
                    SessionProbe::Established => PlayStage::Dispatched { record, path },
                    SessionProbe::Absent => PlayStage::Closed {
                        reply: PlayReply::failure(PlayError::NoActiveSession, sound_id),
                    },
                    SessionProbe::Busy => PlayStage::Closed {
                        reply: PlayReply::failure(PlayError::SessionBusy, sound_id),
                    },
                },
                _ => PlayStage::Located { record, path },
            },
            PlayStage::Dispatched { record, path } => match event {
                PlayEvent::Delivered => PlayStage::Closed {
                    reply: PlayReply::confirmation(sound_id, self.client),
                },
                PlayEvent::DeliveryFailed(_) => match self.client {
                    Client::Discord => PlayStage::Closed {
                        reply: PlayReply::failure(PlayError::DecodeError, sound_id),
                    },
                    Client::Telegram => PlayStage::Closed {
                        reply: PlayReply::confirmation(sound_id, self.client),
                    },
                },
                _ => PlayStage::Dispatched { record, path },
            },
            PlayStage::Closed { reply } => PlayStage::Closed { reply },
        }
    }

    /// The state that follows when the outside world reports `event`.
    pub fn apply(self, event: PlayEvent) -> (next: PlayDispatch)
        ensures
            next@ == next_state(self@, event@),
    {
        let mut next = self;
        let mut stage = PlayStage::Received;
        std::mem::swap(&mut next.stage, &mut stage);
        next.stage = next.next_stage(stage, event);
        next
    }

    /// One step of the dispatcher: the next state, and the request it waits for.
    pub fn advance(self, event: PlayEvent) -> (r: (PlayDispatch, PlayAction))
        ensures
            (r.0@, r.1@) == advance(self@, event@),
    {
        let next = self.apply(event);
        let action = next.pending();
        (next, action)
    }

    /// Takes a request in and says what it waits for first.
    pub fn begin(config: &DispatchConfig, request: PlaySoundPayload) -> (r: (
        PlayDispatch,
        PlayAction,
    ))
        ensures
            r.0@ == initial(config@, request@),
            r.1@ == pending_action(initial(config@, request@)),
    {
        let dispatch = PlayDispatch::new(config, request);
        let action = dispatch.pending();
        (dispatch, action)
    }
}

} // verus!
