//! The playback dispatcher as a transition function over views.

use vstd::prelude::*;
use crate::blob::record_path;
use crate::play_types::{
    Client, ErrorPayloadView, PlayActionView, PlayBodyView, PlayDispatchView, PlayError,
    PlayEventView, PlayReplyView, PlaySoundPayloadView, PlaySoundResponseView, PlayStageView,
    SessionProbe, Status, DispatchConfigView,
};

verus! {

/// The rate, in bits per second, at which the voice session encodes a sound.
pub const VOICE_BITRATE: u32 = 128_000;

/// The status under which each failure is reported.
pub open spec fn status_of(error: PlayError) -> Status {
    match error {
        PlayError::SoundNotFound => Status::ExpectationFailed,
        PlayError::AudioFileMissing => Status::InternalServerError,
        PlayError::NoActiveSession => Status::BadRequest,
        PlayError::SessionBusy => Status::InternalServerError,
        PlayError::DecodeError => Status::InternalServerError,
    }
}

/// The message with which each failure is reported for the sound `sound_id`.
pub open spec fn message_of(error: PlayError, sound_id: Seq<char>) -> Seq<char> {
    match error {
        PlayError::SoundNotFound => "Failed to find sound with id: "@ + sound_id,
        PlayError::AudioFileMissing => "Audio is missing for sound with id: "@ + sound_id,
        PlayError::NoActiveSession => "Bot has to join a voice channel first."@,
        PlayError::SessionBusy => "Voice session is busy, try again."@,
        PlayError::DecodeError => "Failed to decode audio for sound with id: "@ + sound_id,
    }
}

/// The answer to a request for `sound_id` that failed with `error`.
pub open spec fn failure_reply(error: PlayError, sound_id: Seq<char>) -> PlayReplyView {
    PlayReplyView {
        status: status_of(error),
        body: PlayBodyView::Error(ErrorPayloadView { message: message_of(error, sound_id) }),
    }
}

/// The answer to a request whose sound was handed to its backend.
pub open spec fn confirmation(sound_id: Seq<char>, client: Client) -> PlayReplyView {
    PlayReplyView {
        status: Status::Success,
        body: PlayBodyView::Confirmation(PlaySoundResponseView { sound_id, client }),
    }
}

/// A request as it comes in.
pub open spec fn initial(config: DispatchConfigView, request: PlaySoundPayloadView) -> PlayDispatchView {
    PlayDispatchView {
        audio_root: config.audio_root,
        guild_id: config.guild_id,
        chat_id: config.chat_id,
        sound_id: request.sound_id,
        client: request.client,
        stage: PlayStageView::Received,
    }
}

/// `s` at another stage.
pub open spec fn at_stage(s: PlayDispatchView, stage: PlayStageView) -> PlayDispatchView {
    PlayDispatchView { stage, ..s }
}

/// The stage at which a request is answered with `reply`.
pub open spec fn closed(reply: PlayReplyView) -> PlayStageView {
    PlayStageView::Closed { reply }
}

/// The stage at which the request for `sound_id` is answered with the failure `error`.
pub open spec fn failed(error: PlayError, sound_id: Seq<char>) -> PlayStageView {
    closed(failure_reply(error, sound_id))
}

/// The stage that follows when the outside world reports `e` to `s`.
///
/// The row is looked up first, then its blob; only then the sound goes to its
/// backend, for the voice session after a look for the session itself. A
/// failure of the voice session fails the request; a failure of the message
/// backend does not. A report that the stage does not wait for changes nothing.
pub open spec fn next_stage(s: PlayDispatchView, e: PlayEventView) -> PlayStageView {
    match s.stage {
        PlayStageView::Received => match e {
            PlayEventView::Lookup(Some(record)) => PlayStageView::Resolved {
                record,
                path: record_path(s.audio_root, record),
            },
            PlayEventView::Lookup(None) => failed(PlayError::SoundNotFound, s.sound_id),
            _ => s.stage,
        },
        PlayStageView::Resolved { record, path } => match e {
            PlayEventView::BlobChecked(exists) => if !exists {
                failed(PlayError::AudioFileMissing, s.sound_id)
            } else {
                match s.client {
                    Client::Discord => PlayStageView::Located { record, path },
                    Client::Telegram => PlayStageView::Dispatched { record, path },
                }
            },
            _ => s.stage,
        },
        PlayStageView::Located { record, path } => match e {
            PlayEventView::SessionProbed(probe) => match probe {
                SessionProbe::Established => PlayStageView::Dispatched { record, path },
                SessionProbe::Absent => failed(PlayError::NoActiveSession, s.sound_id),
                SessionProbe::Busy => failed(PlayError::SessionBusy, s.sound_id),
            },
            _ => s.stage,
        },
        PlayStageView::Dispatched { record, path } => match e {
            PlayEventView::Delivered => closed(confirmation(s.sound_id, s.client)),
            PlayEventView::DeliveryFailed(why) => match s.client {
                Client::Discord => failed(PlayError::DecodeError, s.sound_id),
                Client::Telegram => closed(confirmation(s.sound_id, s.client)),
            },
            _ => s.stage,
        },
        PlayStageView::Closed { reply } => s.stage,
    }
}

/// The state that follows `s` when the outside world reports `e`.
pub open spec fn next_state(s: PlayDispatchView, e: PlayEventView) -> PlayDispatchView {
    at_stage(s, next_stage(s, e))
}

/// What a state waits for: the request that the outside world is to carry out.
pub open spec fn pending_action(s: PlayDispatchView) -> PlayActionView {
    match s.stage {
        PlayStageView::Received => PlayActionView::FetchRecord { sound_id: s.sound_id },
        PlayStageView::Resolved { record, path } => PlayActionView::CheckBlob { path },
        PlayStageView::Located { record, path } => PlayActionView::ProbeSession {
            guild_id: s.guild_id,
        },
        PlayStageView::Dispatched { record, path } => match s.client {
            Client::Discord => PlayActionView::PlayInSession {
                guild_id: s.guild_id,
                path,
                record,
                bitrate: VOICE_BITRATE,
            },
            Client::Telegram => PlayActionView::SendAudio {
                chat_id: s.chat_id,
                path,
                file_name: record.name,
            },
        },
        PlayStageView::Closed { reply } => PlayActionView::Respond { reply },
    }
}

/// One step of the dispatcher: the next state, and the request it waits for.
pub open spec fn advance(s: PlayDispatchView, e: PlayEventView) -> (
    PlayDispatchView,
    PlayActionView,
) {
    let next = next_state(s, e);
    (next, pending_action(next))
}

/// The state after the reports of `events` came in one after the other.
pub open spec fn run(s: PlayDispatchView, events: Seq<PlayEventView>) -> PlayDispatchView
    decreases events.len(),
{
    if events.len() == 0 {
        s
    } else {
        next_state(run(s, events.drop_last()), events.last())
    }
}

/// Whether a request goes to one of the two backends.
pub open spec fn is_backend_call(a: PlayActionView) -> bool {
    a is ProbeSession || a is PlayInSession || a is SendAudio
}

} // verus!
