//! What holds of every run of the playback dispatcher.

use vstd::prelude::*;
use crate::blob::record_path;
use crate::catalog::SoundRecordView;
use crate::play_model::{
    advance, confirmation, failure_reply, is_backend_call, next_state, pending_action, run,
    VOICE_BITRATE,
};
use crate::play_types::{
    Client, PlayActionView, PlayDispatchView, PlayError, PlayEventView, SessionProbe, Status,
};

verus! {

/// A request that is answered stays answered: whatever is reported to it
/// afterwards, it asks for nothing but that its one answer be given.
pub proof fn law_answer_is_final(s: PlayDispatchView, events: Seq<PlayEventView>)
    requires
        s.stage is Closed,
    ensures
        run(s, events) == s,
        pending_action(run(s, events)) == (PlayActionView::Respond { reply: s.stage->reply }),
    decreases events.len(),
{
    if events.len() > 0 {
        law_answer_is_final(s, events.drop_last());
    }
}

/// A sound that the catalog does not know is answered as not found, and no
/// backend is ever called for it: after the lookup came back empty, every
/// request that the dispatcher makes, whatever is reported to it, is the
/// request to give that answer.
pub proof fn law_unknown_sound_is_not_found(s: PlayDispatchView, later: Seq<PlayEventView>)
    requires
        s.stage is Received,
    ensures
        ({
            let answered = advance(s, PlayEventView::Lookup(None));
            let reply = failure_reply(PlayError::SoundNotFound, s.sound_id);
            &&& reply.status == Status::ExpectationFailed
            &&& answered.1 == PlayActionView::Respond { reply }
            &&& pending_action(run(answered.0, later)) == PlayActionView::Respond { reply }
            &&& !is_backend_call(pending_action(run(answered.0, later)))
        }),
{
    law_answer_is_final(next_state(s, PlayEventView::Lookup(None)), later);
}

/// A sound whose row is there and whose blob is not is answered as missing,
/// and no backend is ever called for it.
pub proof fn law_missing_blob_is_reported(s: PlayDispatchView, later: Seq<PlayEventView>)
    requires
        s.stage is Resolved,
    ensures
        ({
            let answered = advance(s, PlayEventView::BlobChecked(false));
            let reply = failure_reply(PlayError::AudioFileMissing, s.sound_id);
            &&& reply.status == Status::InternalServerError
            &&& answered.1 == PlayActionView::Respond { reply }
            &&& pending_action(run(answered.0, later)) == PlayActionView::Respond { reply }
            &&& !is_backend_call(pending_action(run(answered.0, later)))
        }),
{
    law_answer_is_final(next_state(s, PlayEventView::BlobChecked(false)), later);
}

/// Before the row was found and the blob was seen, no backend is called: from
/// a request that just came in, a backend is called only after a lookup that
/// found the row and a check that found the blob were reported.
pub proof fn law_backend_needs_row_and_blob(s: PlayDispatchView, e: PlayEventView)
    requires
        s.stage is Received || s.stage is Resolved,
    ensures
        is_backend_call(advance(s, e).1) ==> s.stage is Resolved && e
            == PlayEventView::BlobChecked(true),
        s.stage is Received ==> !is_backend_call(pending_action(s)),
        s.stage is Resolved ==> !is_backend_call(pending_action(s)),
{
}

/// What goes to a backend is the blob of the row that was found: its path is
/// that of the row under the audio root, and a message carries the row's
/// display name as the file's name.
pub proof fn law_delivery_carries_the_blob(s: PlayDispatchView, record: SoundRecordView)
    requires
        s.stage is Received,
    ensures
        ({
            let found = next_state(s, PlayEventView::Lookup(Some(record)));
            let seen = next_state(found, PlayEventView::BlobChecked(true));
            let path = record_path(s.audio_root, record);
            &&& pending_action(found) == PlayActionView::CheckBlob { path }
            &&& s.client == Client::Telegram ==> pending_action(seen)
                == (PlayActionView::SendAudio { chat_id: s.chat_id, path, file_name: record.name })
            &&& s.client == Client::Discord ==> {
                &&& pending_action(seen) == PlayActionView::ProbeSession { guild_id: s.guild_id }
                &&& pending_action(
                    next_state(seen, PlayEventView::SessionProbed(SessionProbe::Established)),
                ) == (PlayActionView::PlayInSession {
                    guild_id: s.guild_id,
                    path,
                    record,
                    bitrate: VOICE_BITRATE,
                })
            }
        }),
{
}

/// A sound that was sent as a message is confirmed whether or not the send
/// went through: the answer to a failed send is the answer to a send that
/// succeeded, whatever the failure was.
pub proof fn law_message_failure_is_swallowed(s: PlayDispatchView, why: Seq<char>)
    requires
        s.stage is Dispatched,
        s.client == Client::Telegram,
    ensures
        advance(s, PlayEventView::DeliveryFailed(why)) == advance(s, PlayEventView::Delivered),
        advance(s, PlayEventView::Delivered).1 == (PlayActionView::Respond {
            reply: confirmation(s.sound_id, Client::Telegram),
        }),
        confirmation(s.sound_id, Client::Telegram).status == Status::Success,
{
}

/// A sound that the voice session did not take is not confirmed: the request
/// fails as a decode error.
pub proof fn law_voice_failure_is_reported(s: PlayDispatchView, why: Seq<char>)
    requires
        s.stage is Dispatched,
        s.client == Client::Discord,
    ensures
        advance(s, PlayEventView::DeliveryFailed(why)).1 == (PlayActionView::Respond {
            reply: failure_reply(PlayError::DecodeError, s.sound_id),
        }),
        advance(s, PlayEventView::Delivered).1 == (PlayActionView::Respond {
            reply: confirmation(s.sound_id, Client::Discord),
        }),
{
}

/// A request for the voice session that finds no session is answered at once,
/// with the same answer for every such request for the same sound: the answer
/// depends on nothing but the request, and nothing is handed to the session.
pub proof fn law_absent_session_is_answered_at_once(
    s: PlayDispatchView,
    other: PlayDispatchView,
    later: Seq<PlayEventView>,
)
    requires
        s.stage is Located,
        other.stage is Located,
        s.sound_id == other.sound_id,
    ensures
        ({
            let answered = advance(s, PlayEventView::SessionProbed(SessionProbe::Absent));
            let reply = failure_reply(PlayError::NoActiveSession, s.sound_id);
            &&& reply.status == Status::BadRequest
            &&& answered.1 == PlayActionView::Respond { reply }
            &&& advance(other, PlayEventView::SessionProbed(SessionProbe::Absent)).1 == answered.1
            &&& pending_action(run(answered.0, later)) == PlayActionView::Respond { reply }
        }),
{
    law_answer_is_final(
        next_state(s, PlayEventView::SessionProbed(SessionProbe::Absent)),
        later,
    );
}

} // verus!
