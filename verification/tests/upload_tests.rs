use soundboard::catalog::{Catalog, SoundRecord};
use soundboard::blob::path_for;
use soundboard::upload::{build_record, classify_part, PartKind};
use soundboard::upload_types::{
    PartHeader, UploadAction, UploadBatch, UploadError, UploadEvent, UploadFailure,
    UploadResponse, UploadStage, UploadSuccess,
};

fn file_part(filename: &str) -> Option<PartHeader> {
    Some(PartHeader { name: Some("file".to_string()), filename: Some(filename.to_string()) })
}

fn is_identifier(text: &str) -> bool {
    text.len() == 36
        && text.chars().enumerate().all(|(i, c)| {
            if i == 8 || i == 13 || i == 18 || i == 23 {
                c == '-'
            } else {
                c.is_ascii_digit() || ('a'..='f').contains(&c)
            }
        })
}

/// Drives one file through the pipeline with both outside steps succeeding.
fn store(batch: UploadBatch, filename: &str) -> (UploadBatch, String, SoundRecord) {
    let (batch, action) = batch.step(UploadEvent::Part(file_part(filename)));
    let path = match action {
        UploadAction::StoreBlob { path } => path,
        other => panic!("expected a blob to store, got {:?}", other),
    };
    let (batch, action) = batch.step(UploadEvent::BlobStored);
    let record = match action {
        UploadAction::InsertRecord { record } => record,
        other => panic!("expected a row to insert, got {:?}", other),
    };
    let (batch, action) = batch.step(UploadEvent::RecordInserted);
    assert_eq!(action, UploadAction::NextPart);
    (batch, path, record)
}

#[test]
fn single_clip_is_reported_as_successful() {
    let batch = UploadBatch::new("data/audio".to_string());
    let (batch, path, record) = store(batch, "clip.mp3");
    let (_, action) = batch.step(UploadEvent::EndOfStream);
    let report = match action {
        UploadAction::Respond { report } => report,
        other => panic!("expected the report, got {:?}", other),
    };
    assert_eq!(report.successful.len(), 1);
    assert_eq!(report.successful[0].filename, "clip.mp3");
    assert_eq!(report.successful[0].id, record.id);
    assert_eq!(report.failed, vec![]);
    assert_eq!(report.tags, Vec::<String>::new());
    assert_eq!(path, format!("data/audio/{}.mp3", record.file_name));
}

#[test]
fn stored_record_carries_stem_dotted_extension_and_placeholder_hash() {
    let batch = UploadBatch::new("data/audio".to_string());
    let (_, path, record) = store(batch, "airhorn.final.ogg");
    assert_eq!(record.name, "airhorn.final");
    assert_eq!(record.extension, ".ogg");
    assert_eq!(record.file_hash, "hash");
    assert_eq!(path_for("data/audio", &record), path);
}

#[test]
fn drawn_identifiers_have_the_hyphenated_shape_and_differ() {
    let batch = UploadBatch::new("data/audio".to_string());
    let (batch, _, first) = store(batch, "a.mp3");
    let (_, _, second) = store(batch, "b.mp3");
    for text in [&first.id, &first.file_name, &second.id, &second.file_name] {
        assert!(is_identifier(text), "{}", text);
    }
    assert_ne!(first.id, first.file_name);
    assert_ne!(first.id, second.id);
    assert_ne!(first.file_name, second.file_name);
}

#[test]
fn successful_upload_is_found_in_the_catalog_under_the_reported_id() {
    let mut catalog = Catalog::new();
    let batch = UploadBatch::new("data/audio".to_string());
    let (batch, action) = batch.step(UploadEvent::Part(file_part("clip.mp3")));
    assert!(matches!(action, UploadAction::StoreBlob { .. }));
    let (batch, action) = batch.step(UploadEvent::BlobStored);
    let record = match action {
        UploadAction::InsertRecord { record } => record,
        other => panic!("expected a row to insert, got {:?}", other),
    };
    assert_eq!(catalog.insert(record), Ok(()));
    let (batch, _) = batch.step(UploadEvent::RecordInserted);
    let reported = &batch.successful[0];
    let found = catalog.fetch_by_id(&reported.id).expect("the row is in the catalog");
    assert_eq!(found.name, "clip");
    assert_eq!(found.extension, ".mp3");
    assert_eq!(found.id, reported.id);
}

#[test]
fn name_that_ends_in_a_separator_is_stored_under_its_last_component() {
    for name in ["clip.mp3/", "clip.mp3/.", "dir/clip.mp3//"] {
        let batch = UploadBatch::new("data/audio".to_string());
        let (batch, path, record) = store(batch, name);
        assert_eq!(record.name, "clip");
        assert_eq!(record.extension, ".mp3");
        assert_eq!(path, format!("data/audio/{}.mp3", record.file_name));
        assert_eq!(batch.failed, vec![]);
        assert_eq!(
            batch.successful,
            vec![UploadSuccess { id: record.id, filename: name.to_string() }]
        );
    }
}

#[test]
fn file_without_extension_lands_in_failed_and_asks_for_no_write() {
    let batch = UploadBatch::new("data/audio".to_string());
    let (batch, action) = batch.step(UploadEvent::Part(file_part("noextension")));
    assert_eq!(action, UploadAction::NextPart);
    assert_eq!(batch.stage, UploadStage::AwaitingPart);
    assert_eq!(batch.successful, vec![]);
    assert_eq!(
        batch.failed,
        vec![UploadFailure {
            filename: "noextension".to_string(),
            reason: "Uploaded file name has no extension.".to_string(),
        }]
    );
}

#[test]
fn part_without_filename_is_refused_and_the_batch_goes_on() {
    let batch = UploadBatch::new("data/audio".to_string());
    let header = PartHeader { name: Some("file".to_string()), filename: None };
    let (batch, action) = batch.step(UploadEvent::Part(Some(header)));
    assert_eq!(action, UploadAction::NextPart);
    assert_eq!(
        batch.failed,
        vec![UploadFailure {
            filename: String::new(),
            reason: "Uploaded part carries no filename.".to_string(),
        }]
    );
    let (batch, _, _) = store(batch, "next.wav");
    assert_eq!(batch.successful.len(), 1);
    assert_eq!(batch.failed.len(), 1);
}

#[test]
fn part_without_content_disposition_is_refused() {
    let batch = UploadBatch::new("data/audio".to_string());
    let (batch, action) = batch.step(UploadEvent::Part(None));
    assert_eq!(action, UploadAction::NextPart);
    assert_eq!(batch.failed.len(), 1);
    assert_eq!(batch.failed[0].filename, "");
    assert_eq!(batch.failed[0].reason, UploadError::MissingFilename.reason());
}

#[test]
fn part_without_a_key_is_still_a_file() {
    let batch = UploadBatch::new("data/audio".to_string());
    let header = PartHeader { name: None, filename: Some("clip.mp3".to_string()) };
    let (_, action) = batch.step(UploadEvent::Part(Some(header)));
    assert!(matches!(action, UploadAction::StoreBlob { .. }));
}

#[test]
fn failed_write_is_reported_with_its_reason_and_inserts_nothing() {
    let batch = UploadBatch::new("data/audio".to_string());
    let (batch, _) = batch.step(UploadEvent::Part(file_part("clip.mp3")));
    let (batch, action) = batch.step(UploadEvent::BlobFailed("disk full".to_string()));
    assert_eq!(action, UploadAction::NextPart);
    assert_eq!(batch.successful, vec![]);
    assert_eq!(
        batch.failed,
        vec![UploadFailure { filename: "clip.mp3".to_string(), reason: "disk full".to_string() }]
    );
}

#[test]
fn refused_row_is_reported_with_its_reason() {
    let batch = UploadBatch::new("data/audio".to_string());
    let (batch, _) = batch.step(UploadEvent::Part(file_part("clip.mp3")));
    let (batch, _) = batch.step(UploadEvent::BlobStored);
    let (batch, action) = batch.step(UploadEvent::InsertFailed("UNIQUE constraint".to_string()));
    assert_eq!(action, UploadAction::NextPart);
    assert_eq!(batch.successful, vec![]);
    assert_eq!(
        batch.failed,
        vec![UploadFailure {
            filename: "clip.mp3".to_string(),
            reason: "UNIQUE constraint".to_string(),
        }]
    );
}

#[test]
fn every_error_has_its_words() {
    assert_eq!(UploadError::MissingFilename.reason(), "Uploaded part carries no filename.");
    assert_eq!(UploadError::MissingExtension.reason(), "Uploaded file name has no extension.");
    assert_eq!(UploadError::Io("no space".to_string()).reason(), "no space");
    assert_eq!(UploadError::Storage("locked".to_string()).reason(), "locked");
    assert_eq!(
        UploadFailure::new("a.mp3".to_string(), &UploadError::Io("no space".to_string())),
        UploadFailure { filename: "a.mp3".to_string(), reason: "no space".to_string() }
    );
}

#[test]
fn tags_part_ends_the_batch_at_once() {
    let batch = UploadBatch::new("data/audio".to_string());
    let (batch, _, record) = store(batch, "first.mp3");
    let tags = PartHeader { name: Some("tags".to_string()), filename: None };
    let (batch, action) = batch.step(UploadEvent::Part(Some(tags)));
    let expected = UploadResponse {
        successful: vec![UploadSuccess { id: record.id, filename: "first.mp3".to_string() }],
        failed: vec![],
        tags: vec![],
    };
    assert_eq!(action, UploadAction::Respond { report: batch.report() });
    assert_eq!(batch.report(), expected);
    assert_eq!(batch.stage, UploadStage::Finished);
    // Whatever follows the reserved part is not taken up.
    let (batch, action) = batch.step(UploadEvent::Part(file_part("late.mp3")));
    assert_eq!(action, UploadAction::Respond { report: expected });
    assert_eq!(batch.successful.len(), 1);
    assert_eq!(batch.failed.len(), 0);
}

#[test]
fn tags_part_with_a_filename_still_ends_the_batch() {
    let batch = UploadBatch::new("data/audio".to_string());
    let tags = PartHeader { name: Some("tags".to_string()), filename: Some("t.mp3".to_string()) };
    let (batch, action) = batch.step(UploadEvent::Part(Some(tags)));
    assert!(matches!(action, UploadAction::Respond { .. }));
    assert_eq!(batch.successful.len() + batch.failed.len(), 0);
}

#[test]
fn empty_stream_gives_the_empty_report() {
    let batch = UploadBatch::new("data/audio".to_string());
    let (_, action) = batch.step(UploadEvent::EndOfStream);
    assert_eq!(
        action,
        UploadAction::Respond {
            report: UploadResponse { successful: vec![], failed: vec![], tags: vec![] },
        }
    );
}

#[test]
fn report_has_one_entry_for_each_part_in_stream_order() {
    let mut batch = UploadBatch::new("data/audio".to_string());
    let names = ["a.mp3", "broken", "b.wav", "c.ogg", ".hidden", "d.webm"];
    for name in names {
        let (next, action) = batch.step(UploadEvent::Part(file_part(name)));
        batch = next;
        if let UploadAction::StoreBlob { .. } = action {
            if name == "c.ogg" {
                batch = batch.step(UploadEvent::BlobFailed("short write".to_string())).0;
            } else {
                batch = batch.step(UploadEvent::BlobStored).0;
                batch = batch.step(UploadEvent::RecordInserted).0;
            }
        }
    }
    let report = batch.report();
    assert_eq!(report.successful.len() + report.failed.len(), names.len());
    let taken: Vec<&str> = report.successful.iter().map(|s| s.filename.as_str()).collect();
    let refused: Vec<&str> = report.failed.iter().map(|f| f.filename.as_str()).collect();
    assert_eq!(taken, vec!["a.mp3", "b.wav", "d.webm"]);
    assert_eq!(refused, vec!["broken", "c.ogg", ".hidden"]);
}

#[test]
fn reports_out_of_turn_change_nothing() {
    let batch = UploadBatch::new("data/audio".to_string());
    let (batch, action) = batch.step(UploadEvent::BlobStored);
    assert_eq!(action, UploadAction::NextPart);
    let (batch, action) = batch.step(UploadEvent::InsertFailed("stray".to_string()));
    assert_eq!(action, UploadAction::NextPart);
    assert_eq!(batch, UploadBatch::new("data/audio".to_string()));

    let (batch, first) = batch.step(UploadEvent::Part(file_part("clip.mp3")));
    let (batch, again) = batch.step(UploadEvent::RecordInserted);
    assert_eq!(first, again);
    let (batch, again) = batch.step(UploadEvent::Part(file_part("other.mp3")));
    assert_eq!(first, again);
    let (batch, again) = batch.step(UploadEvent::EndOfStream);
    assert_eq!(first, again);
    assert_eq!(batch.pending(), first);
}

#[test]
fn advance_uses_the_identifier_it_is_given() {
    let batch = UploadBatch::new("root/".to_string());
    let (batch, action) =
        batch.advance(UploadEvent::Part(file_part("clip.mp3")), "blob-name".to_string());
    assert_eq!(action, UploadAction::StoreBlob { path: "root/blob-name.mp3".to_string() });
    let (batch, action) = batch.advance(UploadEvent::BlobStored, "row-key".to_string());
    assert_eq!(
        action,
        UploadAction::InsertRecord {
            record: SoundRecord {
                id: "row-key".to_string(),
                file_name: "blob-name".to_string(),
                extension: ".mp3".to_string(),
                file_hash: "hash".to_string(),
                name: "clip".to_string(),
            },
        }
    );
    let (batch, action) = batch.advance(UploadEvent::RecordInserted, String::new());
    assert_eq!(action, UploadAction::NextPart);
    assert_eq!(
        batch.successful,
        vec![UploadSuccess { id: "row-key".to_string(), filename: "clip.mp3".to_string() }]
    );
}

#[test]
fn identifier_is_wanted_only_where_one_may_be_used() {
    let batch = UploadBatch::new("root".to_string());
    assert!(batch.wants_identifier(&UploadEvent::Part(None)));
    assert!(!batch.wants_identifier(&UploadEvent::EndOfStream));
    assert!(!batch.wants_identifier(&UploadEvent::BlobStored));
    let (batch, _) = batch.step(UploadEvent::Part(file_part("clip.mp3")));
    assert!(batch.wants_identifier(&UploadEvent::BlobStored));
    assert!(!batch.wants_identifier(&UploadEvent::BlobFailed("x".to_string())));
    let (batch, _) = batch.step(UploadEvent::BlobStored);
    assert!(!batch.wants_identifier(&UploadEvent::RecordInserted));
}

#[test]
fn parts_are_classified_before_anything_is_written() {
    assert_eq!(
        classify_part(None),
        PartKind::Refused { filename: String::new(), error: UploadError::MissingFilename }
    );
    assert_eq!(
        classify_part(Some(PartHeader { name: Some("tags".to_string()), filename: None })),
        PartKind::Reserved
    );
    assert_eq!(
        classify_part(file_part("README")),
        PartKind::Refused { filename: "README".to_string(), error: UploadError::MissingExtension }
    );
    assert_eq!(
        classify_part(file_part("clip.mp3")),
        PartKind::File {
            filename: "clip.mp3".to_string(),
            stem: "clip".to_string(),
            extension: "mp3".to_string(),
        }
    );
    // The key is compared as it stands.
    assert!(matches!(
        classify_part(Some(PartHeader {
            name: Some("Tags".to_string()),
            filename: Some("clip.mp3".to_string()),
        })),
        PartKind::File { .. }
    ));
}

#[test]
fn record_is_built_with_the_dot_in_front_of_the_extension() {
    assert_eq!(
        build_record("k".to_string(), "f".to_string(), "stem".to_string(), "wav"),
        SoundRecord {
            id: "k".to_string(),
            file_name: "f".to_string(),
            extension: ".wav".to_string(),
            file_hash: "hash".to_string(),
            name: "stem".to_string(),
        }
    );
    assert_eq!(
        build_record("k".to_string(), "f".to_string(), "stem".to_string(), "").extension,
        "."
    );
}
