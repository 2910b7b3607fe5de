use mikupush::cancellation::UploadCancellations;
use tokio_util::sync::CancellationToken;
use mikupush::client::{FileInfoError, FileStatus, FileUploadError};
use mikupush::mime_type::MimeTypeDetectError;
use mikupush::queue::{UploadQueue, UploadQueueJob};
use mikupush::server::Server;
use mikupush::state::UploadsState;
use mikupush::status::Status;
use mikupush::upload::{
    advance_uploaded_bytes, chunk_size_from_setting, readable_uploads, Progress, ProgressTrack, Upload, UploadModel, UploadRequest,
};
use mikupush::worker::{
    advance_queued_upload, begin_queued_upload, cancel_upload, check_transferable, enqueue_upload_request,
    finish_delete, parse_upload_id,
    enqueue_upload_retry, UploadEvent, UploadOutcome, UploadStep,
};

const ID_A: &str = "0b8e6f2a-1c3d-4e5f-8a9b-0c1d2e3f4a5b";
const ID_B: &str = "1b8e6f2a-1c3d-4e5f-8a9b-0c1d2e3f4a5b";
const ID_C: &str = "2b8e6f2a-1c3d-4e5f-8a9b-0c1d2e3f4a5b";

fn server() -> Server {
    Server::new_added_at(
        "9b8e6f2a-1c3d-4e5f-8a9b-0c1d2e3f4a5b".to_string(),
        "https://push.example".to_string(),
        "push.example".to_string(),
        1,
    )
}

fn request(id: &str, created_at: i64) -> UploadRequest {
    UploadRequest::new_created_at(
        id.to_string(),
        format!("{}.txt", id),
        100,
        "text/plain".to_string(),
        format!("/tmp/{}.txt", id),
        &server(),
        created_at,
    )
}

fn job(request: UploadRequest, retry: bool) -> UploadQueueJob {
    UploadQueueJob { request, server: server(), always_notify: false, retry }
}

fn ids(list: &[UploadRequest]) -> Vec<String> {
    list.iter().map(|r| r.upload.id.clone()).collect()
}

#[test]
fn new_upload_points_at_the_server() {
    let r = request(ID_A, 42);
    assert_eq!(format!("https://push.example/u/{}", ID_A), r.upload.url);
    assert_eq!(Status::Pending, r.upload.status);
    assert_eq!("9b8e6f2a-1c3d-4e5f-8a9b-0c1d2e3f4a5b", r.upload.server_id);
    assert_eq!(42, r.upload.created_at);
    assert_eq!(100, r.progress.total_size);
    assert_eq!(0, r.progress.uploaded_bytes);
    assert!(!r.finished && !r.canceled && !r.chunked && r.error.is_none());
    let now = UploadRequest::new(ID_A.to_string(), "a".to_string(), 1, "x/y".to_string(), "/a".to_string(), server());
    assert_eq!(Status::Pending, now.upload.status);
}

#[test]
fn request_transitions() {
    let r = request(ID_A, 1);
    let chunked = r.upload_by_chunks(5 * 1024 * 1024);
    assert!(chunked.chunked);
    assert_eq!(5 * 1024 * 1024, chunked.chunk_size);

    let failed = r.finish_with_error("exists".to_string(), "already there".to_string());
    assert!(failed.finished);
    let error = failed.error.clone().unwrap();
    assert_eq!("exists", error.code);
    assert_eq!("already there", error.message);

    let finished = failed.finish();
    assert!(finished.finished && finished.error.is_none());

    let canceled = r.canceled();
    assert!(canceled.canceled && canceled.finished && canceled.error.is_none());

    let mut progress = Progress::new(ID_A.to_string(), 100);
    progress.uploaded_bytes = 60;
    progress.rate_bytes = 10;
    let moved = failed.update_progress(progress);
    assert_eq!(60, moved.progress.uploaded_bytes);

    let reset = moved.reset_progress();
    assert_eq!(0, reset.progress.uploaded_bytes);
    assert_eq!(0, reset.progress.rate_bytes);
    assert_eq!(100, reset.progress.total_size);
    assert!(!reset.finished && reset.error.is_none());
}

#[test]
fn progress_track_measures_rate() {
    let mut track = ProgressTrack::new(ID_A.to_string(), 1000);
    let first = track.update(300);
    assert_eq!(300, first.rate_bytes);
    assert_eq!(300, first.uploaded_bytes);
    let second = track.update(450);
    assert_eq!(150, second.rate_bytes);
    let third = track.update(100);
    assert_eq!(0, third.rate_bytes);
    assert_eq!(100, track.last_uploaded_bytes);
    let progress = track.to_progress();
    assert_eq!(100, progress.uploaded_bytes);
    assert_eq!(1000, progress.total_size);
}

#[test]
fn uploaded_bytes_never_pass_the_total() {
    assert_eq!(30, advance_uploaded_bytes(10, 20, 100));
    assert_eq!(100, advance_uploaded_bytes(90, 20, 100));
    assert_eq!(100, advance_uploaded_bytes(100, 0, 100));
}

#[test]
fn uploads_round_trip_through_their_stored_form() {
    let upload = request(ID_A, 7).upload;
    let model = upload.clone().to_model();
    assert_eq!("pending", model.status);
    assert_eq!(100, model.size);
    let back = model.to_upload().unwrap();
    assert_eq!(upload.id, back.id);
    assert_eq!(upload.server_id, back.server_id);
    assert_eq!(upload.url, back.url);
    assert_eq!(Status::Pending, back.status);

    let shouting = UploadModel {
        id: ID_A.to_uppercase(),
        name: "a".to_string(),
        size: -1,
        mime_type: "x/y".to_string(),
        path: "/a".to_string(),
        url: "u".to_string(),
        server_id: ID_B.to_string(),
        created_at: 3,
        status: "weird".to_string(),
    };
    let read = shouting.to_upload().unwrap();
    assert_eq!(ID_A, read.id);
    assert_eq!(u64::MAX, read.size);
    assert_eq!(Status::Failed, read.status);

    let broken = UploadModel {
        id: "not-a-uuid".to_string(),
        name: "a".to_string(),
        size: 1,
        mime_type: "x/y".to_string(),
        path: "/a".to_string(),
        url: "u".to_string(),
        server_id: ID_B.to_string(),
        created_at: 3,
        status: "pending".to_string(),
    };
    assert!(broken.to_upload().is_err());
    let test_upload = Upload::test();
    assert_eq!("test.zip", test_upload.name);
}

#[test]
fn request_from_file_path() {
    let r = UploadRequest::from_file_path(
        "/home/miku/song.mp3".to_string(),
        server(),
        Ok(2048),
        Ok("audio/mpeg".to_string()),
    )
    .unwrap();
    assert_eq!("song.mp3", r.upload.name);
    assert_eq!(2048, r.upload.size);
    assert_eq!("audio/mpeg", r.upload.mime_type);
    assert_eq!("/home/miku/song.mp3", r.upload.path);
    assert!(r.upload.url.starts_with("https://push.example/u/"));

    assert_eq!(
        Err("Failed to get file name".to_string()),
        UploadRequest::from_file_path("/".to_string(), server(), Ok(1), Ok("a/b".to_string()))
            .map(|r| r.upload.name)
    );
    assert_eq!(
        Err("Failed to get file metadata: missing".to_string()),
        UploadRequest::from_file_path("/a.txt".to_string(), server(), Err("missing".to_string()), Ok("a/b".to_string()))
            .map(|r| r.upload.name)
    );
    assert_eq!(
        Err("failed to read file: denied".to_string()),
        UploadRequest::from_file_path(
            "/a.txt".to_string(),
            server(),
            Ok(1),
            Err(MimeTypeDetectError::IOError("denied".to_string()))
        )
        .map(|r| r.upload.name)
    );
}

#[test]
fn registry_lists_newest_first_and_keeps_first_request() {
    let mut state = UploadsState::new();
    state.add_request(request(ID_A, 10));
    state.add_request(request(ID_B, 30));
    let listed = state.add_request(request(ID_C, 20));
    assert_eq!(vec![ID_B.to_string(), ID_C.to_string(), ID_A.to_string()], ids(&listed));

    let listed = state.add_request(request(ID_A, 99));
    assert_eq!(3, listed.len());
    assert_eq!(10, state.get_request(ID_A.to_string()).unwrap().upload.created_at);
}

#[test]
fn registry_updates_and_deletes_by_id() {
    let mut state = UploadsState::new();
    state.add_request(request(ID_A, 10));
    state.add_request(request(ID_B, 20));

    state.update_request(request(ID_A, 10).finish());
    assert!(state.get_request(ID_A.to_string()).unwrap().finished);

    state.update_request(request(ID_C, 5));
    assert!(state.get_request(ID_C.to_string()).is_none());

    let listed = state.delete_request(ID_B.to_string());
    assert_eq!(vec![ID_A.to_string()], ids(&listed));
    assert!(state.get_request(ID_B.to_string()).is_none());
    assert_eq!(1, state.delete_request(ID_B.to_string()).len());
    assert_eq!(1, state.get_all_in_progress().len());
}

#[test]
fn queue_is_first_in_first_out() {
    let mut queue = UploadQueue::new();
    assert!(queue.pop_next().is_none());
    queue.push(job(request(ID_A, 1), false));
    queue.push(job(request(ID_B, 2), true));
    queue.push(job(request(ID_A, 3), true));
    assert_eq!(3, queue.len());
    assert_eq!(2, queue.remove_upload_job(&ID_A.to_string()));
    let next = queue.pop_next().unwrap();
    assert_eq!(ID_B, next.request.upload.id);
    assert!(next.retry);
    assert!(queue.pop_next().is_none());
}

#[test]
fn first_attempt_registers_then_transfers_then_completes() {
    let mut state = UploadsState::new();
    let mut queue = UploadQueue::new();
    enqueue_upload_request(&mut state, &mut queue, request(ID_A, 1), server(), true);
    let queued = queue.pop_next().unwrap();
    assert!(queued.always_notify && !queued.retry);

    let upload = begin_queued_upload(&mut state, queued);
    assert!(matches!(upload.step, UploadStep::Register));
    assert_eq!(Status::InProgress, state.get_request(ID_A.to_string()).unwrap().upload.status);

    let upload = advance_queued_upload(&mut state, upload, UploadEvent::Registered(Ok(())));
    assert!(matches!(upload.step, UploadStep::Transfer));

    let upload = advance_queued_upload(&mut state, upload, UploadEvent::Transferred(Ok(())));
    match &upload.step {
        UploadStep::Finished(UploadOutcome::Completed(r)) => {
            assert_eq!(Status::Completed, r.upload.status);
            assert!(r.finished && r.error.is_none());
        }
        other => panic!("unexpected step {:?}", other),
    }
    let held = state.get_request(ID_A.to_string()).unwrap();
    assert_eq!(Status::Completed, held.upload.status);

    let again = advance_queued_upload(&mut state, upload, UploadEvent::Transferred(Ok(())));
    assert!(matches!(again.step, UploadStep::Finished(UploadOutcome::Completed(_))));
}

#[test]
fn failed_registration_fails_the_upload() {
    let mut state = UploadsState::new();
    state.add_request(request(ID_A, 1));
    let upload = begin_queued_upload(&mut state, job(request(ID_A, 1), false));
    let upload = advance_queued_upload(
        &mut state,
        upload,
        UploadEvent::Registered(Err(FileUploadError::Exists { message: "dup".to_string() })),
    );
    assert!(matches!(upload.step, UploadStep::Finished(UploadOutcome::Failed(_))));
    let held = state.get_request(ID_A.to_string()).unwrap();
    assert_eq!(Status::Failed, held.upload.status);
    assert!(held.finished);
    let error = held.error.unwrap();
    assert_eq!("exists", error.code);
    assert_eq!("dup", error.message);
}

#[test]
fn canceled_transfer_aborts_the_upload() {
    let mut state = UploadsState::new();
    state.add_request(request(ID_A, 1));
    let upload = begin_queued_upload(&mut state, job(request(ID_A, 1), false));
    let upload = advance_queued_upload(&mut state, upload, UploadEvent::Registered(Ok(())));
    let upload = advance_queued_upload(
        &mut state,
        upload,
        UploadEvent::Transferred(Err(FileUploadError::Canceled)),
    );
    assert!(matches!(upload.step, UploadStep::Finished(UploadOutcome::Failed(_))));
    let held = state.get_request(ID_A.to_string()).unwrap();
    assert_eq!(Status::Aborted, held.upload.status);
    assert!(held.canceled && held.finished && held.error.is_none());
}

#[test]
fn retry_of_an_uploaded_file_completes_without_transfer() {
    let mut state = UploadsState::new();
    state.add_request(request(ID_A, 1));
    let upload = begin_queued_upload(&mut state, job(request(ID_A, 1), true));
    assert!(matches!(upload.step, UploadStep::CheckInfo));
    let upload = advance_queued_upload(
        &mut state,
        upload,
        UploadEvent::InfoChecked(Ok(FileStatus::Uploaded)),
    );
    assert!(matches!(upload.step, UploadStep::Finished(UploadOutcome::Completed(_))));
}

#[test]
fn retry_paths_after_info() {
    let mut state = UploadsState::new();
    state.add_request(request(ID_A, 1));

    let upload = begin_queued_upload(&mut state, job(request(ID_A, 1), true));
    let upload = advance_queued_upload(
        &mut state,
        upload,
        UploadEvent::InfoChecked(Ok(FileStatus::WaitingForUpload)),
    );
    assert!(matches!(upload.step, UploadStep::Transfer));

    let upload = begin_queued_upload(&mut state, job(request(ID_A, 1), true));
    let upload = advance_queued_upload(
        &mut state,
        upload,
        UploadEvent::InfoChecked(Err(FileInfoError::NotExists { message: "?".to_string() })),
    );
    assert!(matches!(upload.step, UploadStep::Register));

    let upload = begin_queued_upload(&mut state, job(request(ID_A, 1), true));
    let upload = advance_queued_upload(
        &mut state,
        upload,
        UploadEvent::InfoChecked(Err(FileInfoError::InternalServerError {
            message: "down".to_string(),
        })),
    );
    match &upload.step {
        UploadStep::Finished(UploadOutcome::Rejected(r)) => {
            assert_eq!(Status::Failed, r.upload.status);
            let error = r.error.clone().unwrap();
            assert_eq!("internal_server_error", error.code);
            assert_eq!("down", error.message);
        }
        other => panic!("unexpected step {:?}", other),
    }
    assert_eq!(Status::Failed, state.get_request(ID_A.to_string()).unwrap().upload.status);

    let unexpected = advance_queued_upload(&mut state, upload, UploadEvent::Registered(Ok(())));
    assert!(matches!(unexpected.step, UploadStep::Finished(UploadOutcome::Rejected(_))));
}

#[test]
fn jobs_for_uploads_no_longer_in_progress_are_skipped() {
    let mut state = UploadsState::new();
    let upload = begin_queued_upload(&mut state, job(request(ID_A, 1), false));
    assert!(matches!(upload.step, UploadStep::Finished(UploadOutcome::Skipped)));
    assert_eq!(0, state.get_all_in_progress().len());

    state.add_request(request(ID_B, 1));
    let upload = begin_queued_upload(&mut state, job(request(ID_B, 1), false));
    state.delete_request(ID_B.to_string());
    let upload = advance_queued_upload(&mut state, upload, UploadEvent::Registered(Ok(())));
    let upload = advance_queued_upload(&mut state, upload, UploadEvent::Transferred(Ok(())));
    assert!(matches!(upload.step, UploadStep::Finished(UploadOutcome::Skipped)));
}

#[test]
fn retry_and_cancel_commands() {
    let mut state = UploadsState::new();
    let mut queue = UploadQueue::new();
    let failed = request(ID_A, 1).finish_with_error("x".to_string(), "y".to_string());
    state.add_request(failed);
    state.add_request(request(ID_B, 2));

    assert!(!enqueue_upload_retry(&mut state, &mut queue, ID_C.to_string(), server()));
    assert_eq!(0, queue.len());

    assert!(enqueue_upload_retry(&mut state, &mut queue, ID_A.to_string(), server()));
    let held = state.get_request(ID_A.to_string()).unwrap();
    assert!(!held.finished && held.error.is_none());

    let mut cancellations = UploadCancellations::new();
    let transfer = CancellationToken::new();
    cancellations.add(ID_A.to_string(), transfer.clone());
    let listed = cancel_upload(&mut state, &mut queue, &mut cancellations, ID_A.to_string());
    assert!(transfer.is_cancelled());
    assert_eq!(vec![ID_B.to_string()], ids(&listed));
    assert_eq!(0, queue.len());
}

#[test]
fn transfer_needs_a_media_type() {
    let r = request(ID_A, 1);
    assert_eq!(Ok(()), check_transferable(&r));
    let mut untyped = request(ID_B, 2);
    untyped.upload.mime_type = String::new();
    assert_eq!(Err(FileUploadError::UnknownMimeType), check_transferable(&untyped));
}

fn stored(id: &str, server_id: &str) -> UploadModel {
    UploadModel {
        id: id.to_string(),
        name: format!("{}.bin", id),
        size: 5,
        mime_type: "application/octet-stream".to_string(),
        path: "/tmp/x.bin".to_string(),
        url: "https://push.example/u/x".to_string(),
        server_id: server_id.to_string(),
        created_at: 9,
        status: "completed".to_string(),
    }
}

#[test]
fn unreadable_stored_uploads_are_skipped() {
    let rows = vec![
        stored(ID_A, ID_C),
        stored("broken", ID_C),
        stored(ID_B, "also-broken"),
        stored(ID_C, ID_A),
    ];
    let uploads = readable_uploads(&rows);
    assert_eq!(vec![ID_A.to_string(), ID_C.to_string()], uploads.iter().map(|u| u.id.clone()).collect::<Vec<_>>());
    assert_eq!(Status::Completed, uploads[0].status);
    assert_eq!(ID_A, uploads[1].server_id);
    assert!(readable_uploads(&vec![]).is_empty());
}

#[test]
fn stored_upload_reads_back_unchanged() {
    let mut upload = request(ID_A, 11).upload;
    upload.size = u64::MAX;
    upload.status = Status::Aborted;
    let back = upload.clone().to_model().to_upload().unwrap();
    assert_eq!(upload.id, back.id);
    assert_eq!(upload.name, back.name);
    assert_eq!(upload.size, back.size);
    assert_eq!(upload.mime_type, back.mime_type);
    assert_eq!(upload.path, back.path);
    assert_eq!(upload.url, back.url);
    assert_eq!(upload.created_at, back.created_at);
    assert_eq!(upload.status, back.status);
    assert_eq!(upload.server_id, back.server_id);
}

#[test]
fn canceling_signals_the_transfer_token_once() {
    let mut tokens = UploadCancellations::new();
    let first = CancellationToken::new();
    let replaced = CancellationToken::new();
    tokens.add(ID_A.to_string(), replaced.clone());
    tokens.add(ID_A.to_string(), first.clone());
    let other = CancellationToken::new();
    tokens.add(ID_B.to_string(), other.clone());

    assert!(tokens.cancel(ID_A));
    assert!(first.is_cancelled());
    assert!(!replaced.is_cancelled());
    assert!(!other.is_cancelled());
    assert!(!tokens.cancel(ID_A));

    tokens.remove(ID_B);
    assert!(!other.is_cancelled());
    assert!(!tokens.cancel(ID_B));
    assert!(!tokens.cancel(ID_C));
}

#[test]
fn deleting_an_upload_needs_a_uuid_and_the_server() {
    assert_eq!(Ok(ID_A.to_string()), parse_upload_id(&ID_A.to_uppercase()));
    assert!(parse_upload_id("42").is_err());

    let mut state = UploadsState::new();
    state.add_request(request(ID_A, 1));
    state.add_request(request(ID_B, 2));
    assert_eq!(
        Some("server down".to_string()),
        finish_delete(&mut state, ID_A.to_string(), Err("server down".to_string())).err()
    );
    assert!(state.get_request(ID_A.to_string()).is_some());
    let listed = finish_delete(&mut state, ID_A.to_string(), Ok(())).unwrap();
    assert_eq!(vec![ID_B.to_string()], ids(&listed));
    assert!(state.get_request(ID_A.to_string()).is_none());
}

#[test]
fn fresh_uploads_read_back_from_their_stored_form() {
    let upload = Upload::test();
    let back = upload.clone().to_model().to_upload().unwrap();
    assert_eq!(upload.id, back.id);
    assert_eq!(upload.server_id, back.server_id);
    assert_eq!(upload.size, back.size);
}

#[test]
fn chunk_size_comes_from_the_setting_in_mebibytes() {
    assert_eq!(5 * 1048576, chunk_size_from_setting(Some(5), 7));
    assert_eq!(7, chunk_size_from_setting(None, 7));
    assert_eq!(0, chunk_size_from_setting(Some(0), 7));
}
