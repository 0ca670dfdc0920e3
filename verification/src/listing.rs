//! The answer to a request for the whole catalog.

use vstd::prelude::*;
use crate::catalog::{rows_view, SoundRecord, SoundRecordView};
use crate::play_types::{ErrorPayload, ErrorPayloadView, Status};

verus! {

/// The body of the answer: the rows, or why there are none.
#[derive(Debug, PartialEq, Eq)]
pub enum ListBody {
    Records(Vec<SoundRecord>),
    Error(ErrorPayload),
}

/// `ListBody` as contracts speak of it: every text by its characters.
pub enum ListBodyView {
    Records(Seq<SoundRecordView>),
    Error(ErrorPayloadView),
}

impl View for ListBody {
    type V = ListBodyView;

    open spec fn view(&self) -> ListBodyView {
        match self {
            ListBody::Records(rows) => ListBodyView::Records(rows_view(rows@)),
            ListBody::Error(e) => ListBodyView::Error(e@),
        }
    }
}

/// The answer to a request for the whole catalog.
#[derive(Debug, PartialEq, Eq)]
pub struct ListReply {
    pub status: Status,
    pub body: ListBody,
}

/// `ListReply` as contracts speak of it: every text by its characters.
pub struct ListReplyView {
    pub status: Status,
    pub body: ListBodyView,
}

impl View for ListReply {
    type V = ListReplyView;

    open spec fn view(&self) -> ListReplyView {
        ListReplyView { status: self.status, body: self.body@ }
    }
}

/// The message that reports that the catalog could not be read.
pub open spec fn fetch_failed_message() -> Seq<char> {
    "Server failed to fetch sounds from database."@
}

/// The answer that follows from what reading the catalog gave: the rows as
/// they were read, in their order, or the report of the failure. Why the
/// read failed is not passed on.
pub open spec fn list_reply_of(loaded: Result<Seq<SoundRecordView>, Seq<char>>) -> ListReplyView {
    match loaded {
        Ok(rows) => ListReplyView { status: Status::Success, body: ListBodyView::Records(rows) },
        Err(_) => ListReplyView {
            status: Status::InternalServerError,
            body: ListBodyView::Error(ErrorPayloadView { message: fetch_failed_message() }),
        },
    }
}

/// The view of what reading the catalog gave.
pub open spec fn loaded_view(loaded: Result<Vec<SoundRecord>, String>) -> Result<
    Seq<SoundRecordView>,
    Seq<char>,
> {
    match loaded {
        Ok(rows) => Ok(rows_view(rows@)),
        Err(why) => Err(why@),
    }
}

/// Answers a request for the whole catalog from what reading it gave.
pub fn list_reply(loaded: Result<Vec<SoundRecord>, String>) -> (reply: ListReply)
    ensures
        reply@ == list_reply_of(loaded_view(loaded)),
{
    match loaded {
        Ok(rows) => ListReply { status: Status::Success, body: ListBody::Records(rows) },
        Err(_) => ListReply {
            status: Status::InternalServerError,
            body: ListBody::Error(
                ErrorPayload { message: "Server failed to fetch sounds from database.".to_owned() },
            ),
        },
    }
}

} // verus!
