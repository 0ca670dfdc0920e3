//! What holds of every run of the upload pipeline.

use vstd::prelude::*;
use crate::blob::record_path;
use crate::catalog::{has_id, keys_distinct, lemma_insert_then_fetch, row_with_id, SoundRecordView};
use crate::filename::{extension_of, stem_of};
use crate::upload_model::{
    advance, at_stage, classify, dotted, failure_of, initial, new_record, next_state, report_of,
    reserved_key, with_failure, with_success, PartKindView,
};
use crate::upload_types::{
    PartHeaderView, UploadActionView, UploadBatchView, UploadErrorView, UploadEventView,
    UploadStageView, UploadSuccessView,
};

verus! {

/// All that the outside world contributes to the handling of one part: its
/// content disposition, the identifiers that were drawn for it, and how the
/// write of its blob and the insert of its row ended. What comes after a
/// failure is never looked at.
pub struct PartTrace {
    pub header: Option<PartHeaderView>,
    pub file_name: Seq<char>,
    pub id: Seq<char>,
    pub blob: Result<(), Seq<char>>,
    pub row: Result<(), Seq<char>>,
}

pub open spec fn blob_event(outcome: Result<(), Seq<char>>) -> UploadEventView {
    match outcome {
        Ok(_) => UploadEventView::BlobStored,
        Err(why) => UploadEventView::BlobFailed(why),
    }
}

pub open spec fn row_event(outcome: Result<(), Seq<char>>) -> UploadEventView {
    match outcome {
        Ok(_) => UploadEventView::RecordInserted,
        Err(why) => UploadEventView::InsertFailed(why),
    }
}

/// The state after one part was offered and every request that the pipeline
/// made for it was carried out and reported back.
pub open spec fn after_part(s: UploadBatchView, t: PartTrace) -> UploadBatchView {
    let offered = next_state(s, UploadEventView::Part(t.header), t.file_name);
    if offered.stage is StoringBlob {
        let written = next_state(offered, blob_event(t.blob), t.id);
        if written.stage is InsertingRecord {
            next_state(written, row_event(t.row), Seq::empty())
        } else {
            written
        }
    } else {
        offered
    }
}

/// The state after the parts of `parts` were handled one after the other.
pub open spec fn after_parts(s: UploadBatchView, parts: Seq<PartTrace>) -> UploadBatchView
    decreases parts.len(),
{
    if parts.len() == 0 {
        s
    } else {
        after_part(after_parts(s, parts.drop_last()), parts.last())
    }
}

/// Whether a part stands under the reserved key.
pub open spec fn is_reserved(header: Option<PartHeaderView>) -> bool {
    header is Some && header->0.name == Some(reserved_key())
}

/// The outcome of one part, spelled out: a part under the reserved key ends
/// the batch and leaves both lists alone; every other part adds exactly one
/// entry, at the end of one list, and leaves the batch waiting for the next
/// part. The entry is a success only if the part is a file with an extension
/// whose blob was written and whose row was taken.
pub proof fn law_part_outcome(s: UploadBatchView, t: PartTrace)
    requires
        s.stage is AwaitingPart,
    ensures
        after_part(s, t) == match classify(t.header) {
            PartKindView::Reserved => at_stage(s, UploadStageView::Finished),
            PartKindView::Refused { filename, error } => with_failure(
                s,
                failure_of(filename, error),
            ),
            PartKindView::File { filename, stem, extension } => match t.blob {
                Err(why) => with_failure(s, failure_of(filename, UploadErrorView::Io(why))),
                Ok(_) => match t.row {
                    Err(why) => with_failure(
                        s,
                        failure_of(filename, UploadErrorView::Storage(why)),
                    ),
                    Ok(_) => with_success(s, UploadSuccessView { id: t.id, filename }),
                },
            },
        },
        classify(t.header) is Reserved <==> is_reserved(t.header),
{
}

/// A batch of `n` parts, none under the reserved key, is reported in `n`
/// entries, and the entries that were there before stay in front, in their order.
pub proof fn law_every_part_is_reported(s: UploadBatchView, parts: Seq<PartTrace>)
    requires
        s.stage is AwaitingPart,
        forall|i: int| 0 <= i < parts.len() ==> !is_reserved(#[trigger] parts[i].header),
    ensures
        after_parts(s, parts).stage is AwaitingPart,
        after_parts(s, parts).audio_root == s.audio_root,
        after_parts(s, parts).successful.len() + after_parts(s, parts).failed.len()
            == s.successful.len() + s.failed.len() + parts.len(),
        s.successful.is_prefix_of(after_parts(s, parts).successful),
        s.failed.is_prefix_of(after_parts(s, parts).failed),
    decreases parts.len(),
{
    if parts.len() > 0 {
        let front = parts.drop_last();
        assert forall|i: int| 0 <= i < front.len() implies !is_reserved(
            #[trigger] front[i].header,
        ) by {
            assert(front[i] == parts[i]);
        }
        law_every_part_is_reported(s, front);
        let before = after_parts(s, front);
        assert(!is_reserved(parts[parts.len() - 1].header));
        law_part_outcome(before, parts.last());
    }
}

/// The report of a whole request: with no part under the reserved key, the
/// report that answers the end of the stream has one entry for each part.
pub proof fn law_report_counts_parts(audio_root: Seq<char>, parts: Seq<PartTrace>)
    requires
        forall|i: int| 0 <= i < parts.len() ==> !is_reserved(#[trigger] parts[i].header),
    ensures
        ({
            let last = after_parts(initial(audio_root), parts);
            let end = advance(last, UploadEventView::EndOfStream, Seq::empty());
            &&& end.1 == UploadActionView::Respond { report: report_of(last) }
            &&& report_of(last).successful.len() + report_of(last).failed.len() == parts.len()
            &&& report_of(last).tags.len() == 0
        }),
{
    law_every_part_is_reported(initial(audio_root), parts);
}

/// Nothing follows the reserved key: where the part at `k` is the first one
/// under the reserved key, the batch ends there, with the report of the parts
/// before it, however many parts come after it.
pub proof fn law_nothing_follows_the_reserved_key(
    s: UploadBatchView,
    parts: Seq<PartTrace>,
    k: int,
)
    requires
        s.stage is AwaitingPart,
        0 <= k < parts.len(),
        is_reserved(parts[k].header),
        forall|i: int| 0 <= i < k ==> !is_reserved(#[trigger] parts[i].header),
    ensures
        after_parts(s, parts) == at_stage(
            after_parts(s, parts.take(k)),
            UploadStageView::Finished,
        ),
        report_of(after_parts(s, parts)) == report_of(after_parts(s, parts.take(k))),
    decreases parts.len(),
{
    let front = parts.drop_last();
    if k == parts.len() - 1 {
        assert(front =~= parts.take(k));
        assert forall|i: int| 0 <= i < front.len() implies !is_reserved(
            #[trigger] front[i].header,
        ) by {
            assert(front[i] == parts[i]);
        }
        law_every_part_is_reported(s, front);
        law_part_outcome(after_parts(s, front), parts.last());
    } else {
        assert(front[k] == parts[k]);
        assert forall|i: int| 0 <= i < k implies !is_reserved(#[trigger] front[i].header) by {
            assert(front[i] == parts[i]);
        }
        assert(front.take(k) =~= parts.take(k));
        law_nothing_follows_the_reserved_key(s, front, k);
    }
}

/// A file name without an extension is refused at once: the file is entered
/// in the list of failures under its name, the list of successes stays as it
/// is, and the pipeline asks for the next part, so that no blob is written
/// and no row inserted for it.
pub proof fn law_no_extension_is_refused(
    s: UploadBatchView,
    header: PartHeaderView,
    fresh: Seq<char>,
)
    requires
        s.stage is AwaitingPart,
        header.name != Some(reserved_key()),
        header.filename is Some,
        extension_of(header.filename->0) is None,
    ensures
        advance(s, UploadEventView::Part(Some(header)), fresh) == (
            with_failure(
                s,
                failure_of(header.filename->0, UploadErrorView::MissingExtension),
            ),
            UploadActionView::NextPart,
        ),
        advance(s, UploadEventView::Part(Some(header)), fresh).0.successful == s.successful,
{
}

/// A part under the reserved key ends the batch with the report as it stands,
/// and a batch that has ended stays as it is whatever is reported to it.
pub proof fn law_reserved_key_ends_batch(
    s: UploadBatchView,
    header: PartHeaderView,
    fresh: Seq<char>,
    later: UploadEventView,
    later_fresh: Seq<char>,
)
    requires
        s.stage is AwaitingPart,
        header.name == Some(reserved_key()),
    ensures
        ({
            let ended = advance(s, UploadEventView::Part(Some(header)), fresh);
            &&& ended.0 == at_stage(s, UploadStageView::Finished)
            &&& ended.1 == UploadActionView::Respond { report: report_of(s) }
            &&& advance(ended.0, later, later_fresh) == ended
        }),
{
}

/// A file that is reported as a success was written where its row says, and
/// is found in the catalog under the identifier that the report gives: the
/// row found has the stem of the uploaded name as its display name and the
/// extension of the uploaded name, with the dot in front.
pub proof fn law_stored_file_is_found(
    s: UploadBatchView,
    t: PartTrace,
    rows: Seq<SoundRecordView>,
)
    requires
        s.stage is AwaitingPart,
        classify(t.header) is File,
        t.blob is Ok,
        t.row is Ok,
        keys_distinct(rows),
        !has_id(rows, t.id),
    ensures
        ({
            let filename = t.header->0.filename->0;
            let record = new_record(
                t.id,
                t.file_name,
                stem_of(filename)->0,
                extension_of(filename)->0,
            );
            let offered = advance(s, UploadEventView::Part(t.header), t.file_name);
            let written = advance(offered.0, UploadEventView::BlobStored, t.id);
            &&& offered.1 == UploadActionView::StoreBlob {
                path: record_path(s.audio_root, record),
            }
            &&& written.1 == UploadActionView::InsertRecord { record }
            &&& after_part(s, t).successful == s.successful.push(
                UploadSuccessView { id: t.id, filename },
            )
            &&& after_part(s, t).failed == s.failed
            &&& row_with_id(rows.push(record), t.id) == Some(record)
            &&& record.name == stem_of(filename)->0
            &&& record.extension == dotted(extension_of(filename)->0)
        }),
{
    let filename = t.header->0.filename->0;
    let record = new_record(t.id, t.file_name, stem_of(filename)->0, extension_of(filename)->0);
    lemma_insert_then_fetch(rows, record);
}

} // verus!
