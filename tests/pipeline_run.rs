use photo_moderation::exif::{ExifLoader, ExifTag, ExifValue};
use photo_moderation::pipeline::{
    rendition_bounds, scaled_dimensions, FileType, Outcome, PhotoToUpload, PipelineAction, PipelineError,
    PipelineEvent, PipelineRun, ScratchFile, Stage,
};
use photo_moderation::queue::{route_job, JobPlan, QueueMessage, QueueOperation};
use photo_moderation::submission::Submission;

const MB: u64 = 1024 * 1024;

fn files(t: FileType) -> PhotoToUpload {
    PhotoToUpload::new(t, 1, 2, 3, 4)
}

fn pending(mime: &str) -> Submission {
    Submission::pending(42, 1001, "BQACAgIAAxkBAAI".to_string(), Some(mime.to_string()), 1_700_000_000)
}

#[test]
fn dimension_guard_brings_longer_edge_to_4000() {
    assert_eq!(rendition_bounds(2 * MB, 6000, 3000), vec![4000]);
    assert_eq!(scaled_dimensions(6000, 3000, 4000), (4000, 2000));
    assert_eq!(scaled_dimensions(3000, 6000, 4000), (2000, 4000));
    assert_eq!(scaled_dimensions(6000, 3000, 320), (320, 160));
    assert_eq!(scaled_dimensions(4032, 3024, 2016), (2016, 1512));
}

#[test]
fn small_image_is_not_scaled() {
    assert_eq!(rendition_bounds(2 * MB, 4000, 3000), Vec::<u32>::new());
    assert_eq!(rendition_bounds(10 * MB, 4000, 4000), Vec::<u32>::new());
}

#[test]
fn size_guard_halves_longer_edge() {
    assert_eq!(rendition_bounds(20 * MB, 4032, 3024), vec![2016]);
    assert_eq!(rendition_bounds(10 * MB + 1, 6000, 4000), vec![3000]);
}

#[test]
fn both_guards_apply_in_order() {
    assert_eq!(rendition_bounds(30 * MB, 12000, 8000), vec![6000, 4000]);
}

#[test]
fn scaled_short_edge_is_rounded_and_at_least_one() {
    assert_eq!(scaled_dimensions(4001, 3, 4000), (4000, 3));
    assert_eq!(scaled_dimensions(9000, 1, 4000), (4000, 1));
    assert_eq!(scaled_dimensions(3000, 1001, 2000), (2000, 667));
}

#[test]
fn file_type_from_declared_media_type() {
    assert_eq!(FileType::from_mime(&Some("image/heic".to_string())), FileType::Heic);
    assert_eq!(FileType::from_mime(&Some("image/HEIF".to_string())), FileType::Heic);
    assert_eq!(FileType::from_mime(&Some("image/png".to_string())), FileType::Png);
    assert_eq!(FileType::from_mime(&Some("image/jpeg".to_string())), FileType::Jpeg);
    assert_eq!(FileType::from_mime(&Some("not a type".to_string())), FileType::Jpeg);
    assert_eq!(FileType::from_mime(&None), FileType::Jpeg);
    assert_eq!(FileType::Heic.get_extension(), "heic");
}

#[test]
fn scratch_paths_are_named_by_identifiers() {
    let f = files(FileType::Heic);
    assert_eq!(f.doc_path, "/tmp/00000000-0000-0000-0000-000000000001.heic");
    assert_eq!(f.photo_path, "/tmp/00000000-0000-0000-0000-000000000002.jpg");
    assert_eq!(f.jpeg_path, "/tmp/00000000-0000-0000-0000-000000000003.jpg");
    assert_eq!(f.thumb_path, "/tmp/00000000-0000-0000-0000-000000000004.jpg");
    assert_eq!(f.path(ScratchFile::Converted), &f.jpeg_path);
    let p = files(FileType::Png);
    assert_eq!(p.photo_path, "/tmp/00000000-0000-0000-0000-000000000002.png");
}

#[test]
fn approved_submission_replay_does_nothing() {
    let mut s = pending("image/jpeg");
    s.approve(555, 1_700_000_100);
    let (run, action) = PipelineRun::start(&s, files(FileType::Jpeg), None, "@bob".to_string());
    assert_eq!(action, PipelineAction::Finish);
    assert_eq!(run.stage(), Stage::Finished);
    assert!(run.written().is_empty());
    assert_eq!(run.outcome(), Outcome::Skipped);
}

#[test]
fn approval_never_reverts() {
    let mut s = pending("image/jpeg");
    assert!(!s.is_approved());
    s.approve(555, 10);
    s.approve(777, 20);
    s.update_msg_id(9);
    assert!(s.is_approved());
    assert_eq!(s.published_message_id(), Some(555));
    assert_eq!(s.published_at(), Some(10));
    assert_eq!(s.moderation_message_id, Some(9));
}

#[test]
fn stored_record_must_be_consistent() {
    assert!(Submission::from_record(1, 2, None, "f".to_string(), None, 0, true, None, None).is_none());
    assert!(Submission::from_record(1, 2, None, "f".to_string(), None, 0, true, Some(5), Some(6)).is_some());
    assert!(Submission::from_record(1, 2, None, "f".to_string(), None, 0, false, Some(5), None).is_none());
}

#[test]
fn scenario_jpeg_is_published_as_photo_and_document() {
    let mut sub = pending("image/jpeg");
    let job = QueueMessage::approve(sub.id);
    assert_eq!(job.operation, QueueOperation::Approve);
    assert!(matches!(route_job(&job, Some(&sub)), JobPlan::Publish));
    let (mut run, a) = PipelineRun::start(&sub, files(FileType::Jpeg), None, "@bob".to_string());
    assert_eq!(a, PipelineAction::Download);
    assert_eq!(run.next(PipelineEvent::Done), PipelineAction::CopyOriginal);
    assert_eq!(run.next(PipelineEvent::Done), PipelineAction::CopyRendition);
    assert_eq!(run.next(PipelineEvent::Done), PipelineAction::Inspect);
    let a = run.next(PipelineEvent::Inspected { bytes: 2 * MB, width: 3000, height: 2000 });
    assert_eq!(a, PipelineAction::ReadMetadata);
    assert_eq!(run.next(PipelineEvent::Metadata(None)), PipelineAction::MakeThumbnail { bound: 320 });
    assert_eq!(run.caption(), "👤 Автор: @bob");
    assert_eq!(run.next(PipelineEvent::Done), PipelineAction::SendPhoto);
    assert_eq!(run.next(PipelineEvent::Sent { message_id: 77 }), PipelineAction::SendDocument);
    assert_eq!(run.next(PipelineEvent::Done), PipelineAction::Persist { message_id: 77 });
    sub.approve(77, 1_700_000_500);
    assert_eq!(run.next(PipelineEvent::Done), PipelineAction::Cleanup);
    let mut written = run.written().clone();
    written.sort_by_key(|f| format!("{:?}", f));
    assert_eq!(
        written,
        vec![ScratchFile::Converted, ScratchFile::Original, ScratchFile::Rendition, ScratchFile::Thumbnail]
    );
    assert_eq!(run.next(PipelineEvent::Done), PipelineAction::Finish);
    assert_eq!(run.outcome(), Outcome::Published { message_id: 77 });
    assert!(sub.is_approved());
    assert_eq!(sub.published_message_id(), Some(77));
}

#[test]
fn scenario_heic_is_converted_halved_and_grouped() {
    let sub = pending("image/heic");
    let (mut run, a) =
        PipelineRun::start(&sub, files(FileType::Heic), Some("AAMCAgADGQ".to_string()), "@eve".to_string());
    assert_eq!(a, PipelineAction::Download);
    assert_eq!(run.next(PipelineEvent::Done), PipelineAction::Convert);
    assert_eq!(run.next(PipelineEvent::Done), PipelineAction::CopyRendition);
    assert_eq!(run.next(PipelineEvent::Done), PipelineAction::Inspect);
    let a = run.next(PipelineEvent::Inspected { bytes: 20 * MB, width: 4032, height: 3024 });
    assert_eq!(a, PipelineAction::Resize { bound: 2016 });
    assert_eq!(run.next(PipelineEvent::Done), PipelineAction::ReadMetadata);
    let exif = ExifLoader::new(vec![(ExifTag::Make, ExifValue::Ascii(b"Apple".to_vec()))]);
    assert_eq!(run.next(PipelineEvent::Metadata(Some(exif))), PipelineAction::SendPhoto);
    assert_eq!(run.caption(), "📸 Снято на: Apple\n\n👤 Автор: @eve");
    assert_eq!(run.next(PipelineEvent::Sent { message_id: 5 }), PipelineAction::SendGroup);
    assert_eq!(run.next(PipelineEvent::Done), PipelineAction::Persist { message_id: 5 });
    assert_eq!(run.next(PipelineEvent::Done), PipelineAction::Cleanup);
    assert_eq!(run.written().len(), 3);
    assert_eq!(run.next(PipelineEvent::Done), PipelineAction::Finish);
    assert_eq!(run.outcome(), Outcome::Published { message_id: 5 });
}

#[test]
fn failed_conversion_cleans_up_what_was_written() {
    let sub = pending("image/heif");
    let (mut run, _) = PipelineRun::start(&sub, files(FileType::Heic), None, "@eve".to_string());
    assert_eq!(run.next(PipelineEvent::Done), PipelineAction::Convert);
    assert_eq!(run.next(PipelineEvent::Failed), PipelineAction::Cleanup);
    assert_eq!(run.written(), &vec![ScratchFile::Original, ScratchFile::Rendition]);
    assert_eq!(run.outcome(), Outcome::Failed(PipelineError::Conversion));
    assert_eq!(run.next(PipelineEvent::Done), PipelineAction::Finish);
    assert_eq!(run.next(PipelineEvent::Done), PipelineAction::Finish);
}

#[test]
fn failed_download_cleans_up_partial_file() {
    let sub = pending("image/png");
    let (mut run, _) = PipelineRun::start(&sub, files(FileType::Png), None, "@eve".to_string());
    assert_eq!(run.next(PipelineEvent::Failed), PipelineAction::Cleanup);
    assert_eq!(run.written(), &vec![ScratchFile::Original]);
    assert_eq!(run.outcome(), Outcome::Failed(PipelineError::Download));
}

#[test]
fn failed_upload_and_persist_still_clean_up() {
    let sub = pending("image/jpeg");
    let (mut run, _) = PipelineRun::start(&sub, files(FileType::Jpeg), Some("t".to_string()), "x".to_string());
    run.next(PipelineEvent::Done);
    run.next(PipelineEvent::Done);
    run.next(PipelineEvent::Done);
    run.next(PipelineEvent::Inspected { bytes: 1, width: 10, height: 10 });
    assert_eq!(run.next(PipelineEvent::Metadata(None)), PipelineAction::SendPhoto);
    assert_eq!(run.next(PipelineEvent::Failed), PipelineAction::Cleanup);
    assert_eq!(run.outcome(), Outcome::Failed(PipelineError::Upload));

    let (mut run, _) = PipelineRun::start(&sub, files(FileType::Jpeg), Some("t".to_string()), "x".to_string());
    run.next(PipelineEvent::Done);
    run.next(PipelineEvent::Done);
    run.next(PipelineEvent::Done);
    run.next(PipelineEvent::Inspected { bytes: 1, width: 10, height: 10 });
    run.next(PipelineEvent::Metadata(None));
    run.next(PipelineEvent::Sent { message_id: 3 });
    assert_eq!(run.next(PipelineEvent::Done), PipelineAction::Persist { message_id: 3 });
    assert_eq!(run.next(PipelineEvent::Failed), PipelineAction::Cleanup);
    assert_eq!(run.outcome(), Outcome::Failed(PipelineError::Persistence));
}

#[test]
fn failed_resize_is_not_fatal() {
    let sub = pending("image/jpeg");
    let (mut run, _) = PipelineRun::start(&sub, files(FileType::Jpeg), None, "x".to_string());
    run.next(PipelineEvent::Done);
    run.next(PipelineEvent::Done);
    run.next(PipelineEvent::Done);
    let a = run.next(PipelineEvent::Inspected { bytes: 30 * MB, width: 12000, height: 8000 });
    assert_eq!(a, PipelineAction::Resize { bound: 6000 });
    assert_eq!(run.next(PipelineEvent::Failed), PipelineAction::Resize { bound: 4000 });
    assert_eq!(run.next(PipelineEvent::Done), PipelineAction::ReadMetadata);
}
