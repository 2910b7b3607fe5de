//! The decisions of the upload worker: what happens to a queued upload as
//! the server answers, and the commands that enqueue, retry and cancel
//! uploads. The worker's calls to the server are made by the caller, which
//! hands each answer back as an event.

use vstd::prelude::*;
use crate::client::{
    ClientError, FileInfoError, FileStatus, FileUploadError, FILE_INFO_ERROR_NOT_EXISTS,
    info_error_code, info_error_message, upload_error_code, upload_error_message,
};
use crate::cancellation::UploadCancellations;
use crate::queue::{UploadQueue, UploadQueueJob, job_is_not_for};
use crate::ids::{parse_uuid, string_result_view, uuid_parse_result};
use crate::server::Server;
use crate::state::{UploadsState, added, deleted, has_request, index_of, lemma_index_of_unique, listed_newest_first, lookup, updated};
use crate::status::Status;
use crate::upload::{Progress, Upload, UploadRequest, canceled_request, failed_request, finished_request};

verus! {

/// The same request with the upload in the given status.
pub open spec fn with_status(r: UploadRequest, status: Status) -> UploadRequest {
    UploadRequest { upload: Upload { status, ..r.upload }, ..r }
}

/// The request as the worker starts on it: in progress, not finished, not
/// canceled, no error.
pub open spec fn in_progress_request(r: UploadRequest) -> UploadRequest {
    UploadRequest { finished: false, canceled: false, error: None, ..with_status(r, Status::InProgress) }
}

/// The request once its upload has completed.
pub open spec fn completed_request(r: UploadRequest) -> UploadRequest {
    finished_request(with_status(r, Status::Completed))
}

/// `after` is `before` failed with the given code and message.
pub open spec fn failed_with(before: UploadRequest, after: UploadRequest, code: Seq<char>, message: Seq<char>) -> bool {
    &&& after.error is Some
    &&& after.error->0.code@ == code
    &&& after.error->0.message@ == message
    &&& after == failed_request(with_status(before, Status::Failed), after.error->0)
}

/// `after` is `before` once its transfer ended with the given error: a
/// cancellation aborts it, any other error fails it with the error's code
/// and message.
pub open spec fn failed_by(before: UploadRequest, after: UploadRequest, e: FileUploadError) -> bool {
    if e is Canceled {
        after == canceled_request(with_status(before, Status::Aborted))
    } else {
        failed_with(before, after, upload_error_code(e), upload_error_message(e))
    }
}

/// Marks a request as taken up by the worker.
pub fn mark_in_progress(request: &UploadRequest) -> (r: UploadRequest)
    ensures
        r == in_progress_request(*request),
{
    let mut r = request.clone();
    r.upload.status = Status::InProgress;
    r.finished = false;
    r.canceled = false;
    r.error = None;
    r
}

/// Marks a request as completed.
pub fn complete_request(request: &UploadRequest) -> (r: UploadRequest)
    ensures
        r == completed_request(*request),
{
    let mut r = request.clone();
    r.upload.status = Status::Completed;
    r.finish()
}

/// Marks a request as ended by the given error.
pub fn fail_request(request: &UploadRequest, error: &FileUploadError) -> (r: UploadRequest)
    ensures
        failed_by(*request, r, *error),
{
    let mut r = request.clone();
    if error.is_canceled() {
        r.upload.status = Status::Aborted;
        r.canceled()
    } else {
        r.upload.status = Status::Failed;
        r.finish_with_error(error.code(), error.to_string())
    }
}

/// Marks a request as refused because the server could not tell about it.
pub fn reject_request(request: &UploadRequest, error: &FileInfoError) -> (r: UploadRequest)
    ensures
        failed_with(*request, r, info_error_code(*error), info_error_message(*error)),
{
    let mut r = request.clone();
    r.upload.status = Status::Failed;
    r.finish_with_error(error.code(), error.to_string())
}

/// Whether the file of a request can be sent: it needs a known media type.
/// A request whose media type is empty is refused with `UnknownMimeType`.
pub fn check_transferable(request: &UploadRequest) -> (r: Result<(), FileUploadError>)
    ensures
        request.upload.mime_type@.len() == 0 ==> r == Err::<(), FileUploadError>(
            FileUploadError::UnknownMimeType,
        ),
        request.upload.mime_type@.len() != 0 ==> r is Ok,
{
    if request.upload.mime_type.unicode_len() == 0 {
        Err(FileUploadError::UnknownMimeType)
    } else {
        Ok(())
    }
}

/// How the worker's handling of a queued upload ended.
#[derive(Debug)]
pub enum UploadOutcome {
    /// The upload was no longer in progress; nothing was changed.
    Skipped,
    /// The upload completed; the request as it now stands.
    Completed(UploadRequest),
    /// The transfer or its registration failed or was canceled; the request
    /// as it now stands.
    Failed(UploadRequest),
    /// On a retry, the server could not tell about the upload; the request as
    /// it now stands.
    Rejected(UploadRequest),
}

/// What the worker waits for next.
#[derive(Debug)]
pub enum UploadStep {
    /// The server's information about the upload (retries only).
    CheckInfo,
    /// The registration of the upload on the server.
    Register,
    /// The transfer of the file.
    Transfer,
    /// Nothing: the upload is done with.
    Finished(UploadOutcome),
}

/// An answer of the server to what the worker asked.
#[derive(Debug)]
pub enum UploadEvent {
    InfoChecked(Result<FileStatus, FileInfoError>),
    Registered(Result<(), FileUploadError>),
    Transferred(Result<(), FileUploadError>),
}

/// A queued upload in the worker's hands: the job, the request as the
/// worker took it up, and the step it waits on.
#[derive(Debug)]
pub struct QueuedUpload {
    pub job: UploadQueueJob,
    pub request: UploadRequest,
    pub step: UploadStep,
}

/// The number of answers that a step can still wait for.
pub open spec fn step_rank(step: UploadStep) -> nat {
    match step {
        UploadStep::CheckInfo => 3,
        UploadStep::Register => 2,
        UploadStep::Transfer => 1,
        UploadStep::Finished(_) => 0,
    }
}

/// The event answers what the step waits for.
pub open spec fn answers(step: UploadStep, event: UploadEvent) -> bool {
    match (step, event) {
        (UploadStep::CheckInfo, UploadEvent::InfoChecked(_)) => true,
        (UploadStep::Register, UploadEvent::Registered(_)) => true,
        (UploadStep::Transfer, UploadEvent::Transferred(_)) => true,
        _ => false,
    }
}

/// Completing the upload with the given id takes the requests from `old` to
/// `new` and ends with `step`.
pub open spec fn completes(old: Seq<UploadRequest>, new: Seq<UploadRequest>, id: Seq<char>, step: UploadStep) -> bool {
    match lookup(old, id) {
        Some(r) => new == updated(old, completed_request(r)) && step == UploadStep::Finished(
            UploadOutcome::Completed(completed_request(r)),
        ),
        None => new == old && step == UploadStep::Finished(UploadOutcome::Skipped),
    }
}

/// Failing the upload with the given id by `e` takes the requests from
/// `old` to `new` and ends with `step`.
pub open spec fn fails(old: Seq<UploadRequest>, new: Seq<UploadRequest>, id: Seq<char>, e: FileUploadError, step: UploadStep) -> bool {
    match lookup(old, id) {
        Some(r) => step matches UploadStep::Finished(UploadOutcome::Failed(after)) && failed_by(r, after, e)
            && new == updated(old, after),
        None => new == old && step == UploadStep::Finished(UploadOutcome::Skipped),
    }
}

/// Rejecting `request` by `e` takes the requests from `old` to `new` and
/// ends with `step`.
pub open spec fn rejects(old: Seq<UploadRequest>, new: Seq<UploadRequest>, request: UploadRequest, e: FileInfoError, step: UploadStep) -> bool {
    step matches UploadStep::Finished(UploadOutcome::Rejected(after)) && failed_with(
        request,
        after,
        info_error_code(e),
        info_error_message(e),
    ) && new == updated(old, after)
}

/// How one answer moves a queued upload on: from `old` to `new` requests,
/// from `before` to `after` in the worker's hands.
pub open spec fn advances(
    old: Seq<UploadRequest>,
    new: Seq<UploadRequest>,
    before: QueuedUpload,
    event: UploadEvent,
    after: QueuedUpload,
) -> bool {
    let id = before.job.request.upload.id@;
    &&& after.job == before.job
    &&& after.request == before.request
    &&& match (before.step, event) {
        (UploadStep::CheckInfo, UploadEvent::InfoChecked(Err(e))) => if info_error_code(e)
            == FILE_INFO_ERROR_NOT_EXISTS@ {
            new == old && after.step == UploadStep::Register
        } else {
            rejects(old, new, before.request, e, after.step)
        },
        (UploadStep::CheckInfo, UploadEvent::InfoChecked(Ok(FileStatus::Uploaded))) => completes(
            old,
            new,
            id,
            after.step,
        ),
        (UploadStep::CheckInfo, UploadEvent::InfoChecked(Ok(FileStatus::WaitingForUpload))) => new
            == old && after.step == UploadStep::Transfer,
        (UploadStep::Register, UploadEvent::Registered(Ok(()))) => new == old && after.step
            == UploadStep::Transfer,
        (UploadStep::Register, UploadEvent::Registered(Err(e))) => fails(old, new, id, e, after.step),
        (UploadStep::Transfer, UploadEvent::Transferred(Ok(()))) => completes(old, new, id, after.step),
        (UploadStep::Transfer, UploadEvent::Transferred(Err(e))) => fails(old, new, id, e, after.step),
        _ => new == old && after.step == before.step,
    }
}

/// Completes the upload with the given id, if it is still in progress, and
/// tells how that ended.
fn complete_upload(state: &mut UploadsState, upload_id: &String) -> (step: UploadStep)
    requires
        old(state).wf(),
    ensures
        final(state).wf(),
        completes(old(state).requests(), final(state).requests(), upload_id@, step),
{
    match state.get_request(upload_id.clone()) {
        Some(request) => {
            let completed = complete_request(&request);
            state.update_request(completed.clone());
            UploadStep::Finished(UploadOutcome::Completed(completed))
        },
        None => UploadStep::Finished(UploadOutcome::Skipped),
    }
}

/// Fails the upload with the given id by the given error, if it is still in
/// progress, and tells how that ended.
fn fail_upload(state: &mut UploadsState, upload_id: &String, error: &FileUploadError) -> (step: UploadStep)
    requires
        old(state).wf(),
    ensures
        final(state).wf(),
        fails(old(state).requests(), final(state).requests(), upload_id@, *error, step),
{
    match state.get_request(upload_id.clone()) {
        Some(request) => {
            let failed = fail_request(&request, error);
            state.update_request(failed.clone());
            UploadStep::Finished(UploadOutcome::Failed(failed))
        },
        None => UploadStep::Finished(UploadOutcome::Skipped),
    }
}

/// Takes up a queued upload: skips it when it is no longer in progress,
/// else marks it in progress and waits for the server's information about
/// it (a retry) or for its registration (a first attempt).
pub fn begin_queued_upload(state: &mut UploadsState, job: UploadQueueJob) -> (r: QueuedUpload)
    requires
        old(state).wf(),
    ensures
        final(state).wf(),
        r.job == job,
        match lookup(old(state).requests(), job.request.upload.id@) {
            Some(found) => {
                &&& r.request == in_progress_request(found)
                &&& final(state).requests() == updated(old(state).requests(), r.request)
                &&& r.step == if job.retry {
                    UploadStep::CheckInfo
                } else {
                    UploadStep::Register
                }
            },
            None => {
                &&& r.request == job.request
                &&& final(state).requests() == old(state).requests()
                &&& r.step == UploadStep::Finished(UploadOutcome::Skipped)
            },
        },
{
    match state.get_request(job.request.upload.id.clone()) {
        Some(found) => {
            let request = mark_in_progress(&found);
            state.update_request(request.clone());
            let step = if job.retry {
                UploadStep::CheckInfo
            } else {
                UploadStep::Register
            };
            QueuedUpload { job, request, step }
        },
        None => {
            let request = job.request.clone();
            QueuedUpload { job, request, step: UploadStep::Finished(UploadOutcome::Skipped) }
        },
    }
}

/// Moves a queued upload on by one answer of the server. An answer that the
/// step does not wait for changes nothing.
pub fn advance_queued_upload(state: &mut UploadsState, upload: QueuedUpload, event: UploadEvent) -> (r: QueuedUpload)
    requires
        old(state).wf(),
    ensures
        final(state).wf(),
        advances(old(state).requests(), final(state).requests(), upload, event, r),
{
    let QueuedUpload { job, request, step } = upload;
    let id = job.request.upload.id.clone();
    let next = match step {
        UploadStep::CheckInfo => match event {
            UploadEvent::InfoChecked(Err(e)) => {
                if e.is_not_exists() {
                    UploadStep::Register
                } else {
                    let rejected = reject_request(&request, &e);
                    state.update_request(rejected.clone());
                    UploadStep::Finished(UploadOutcome::Rejected(rejected))
                }
            },
            UploadEvent::InfoChecked(Ok(FileStatus::Uploaded)) => complete_upload(state, &id),
            UploadEvent::InfoChecked(Ok(FileStatus::WaitingForUpload)) => UploadStep::Transfer,
            _ => UploadStep::CheckInfo,
        },
        UploadStep::Register => match event {
            UploadEvent::Registered(Ok(())) => UploadStep::Transfer,
            UploadEvent::Registered(Err(e)) => fail_upload(state, &id, &e),
            _ => UploadStep::Register,
        },
        UploadStep::Transfer => match event {
            UploadEvent::Transferred(Ok(())) => complete_upload(state, &id),
            UploadEvent::Transferred(Err(e)) => fail_upload(state, &id, &e),
            _ => UploadStep::Transfer,
        },
        UploadStep::Finished(outcome) => UploadStep::Finished(outcome),
    };
    QueuedUpload { job, request, step: next }
}

/// Registers a new upload as in progress and queues it for the worker as a
/// first attempt; lists the uploads in progress, newest first. The job is
/// queued even when an upload with the same id was in progress already.
pub fn enqueue_upload_request(
    state: &mut UploadsState,
    queue: &mut UploadQueue,
    request: UploadRequest,
    server: Server,
    always_notify: bool,
) -> (listed: Vec<UploadRequest>)
    requires
        old(state).wf(),
    ensures
        final(state).wf(),
        final(state).requests() == added(old(state).requests(), request),
        final(queue).jobs() == old(queue).jobs().push(
            UploadQueueJob { request, server, always_notify, retry: false },
        ),
        listed_newest_first(listed@, final(state).requests()),
{
    let listed = state.add_request(request.clone());
    queue.push(UploadQueueJob { request, server, always_notify, retry: false });
    listed
}

/// Queues another attempt at an upload in progress: its progress is reset in
/// the registry and a retry job is queued. Tells whether the upload was
/// found; when it is not, nothing changes.
pub fn enqueue_upload_retry(
    state: &mut UploadsState,
    queue: &mut UploadQueue,
    upload_id: String,
    server: Server,
) -> (found: bool)
    requires
        old(state).wf(),
    ensures
        final(state).wf(),
        found == has_request(old(state).requests(), upload_id@),
        !found ==> final(state).requests() == old(state).requests() && final(queue).jobs() == old(
            queue,
        ).jobs(),
        found ==> {
            let before = lookup(old(state).requests(), upload_id@)->0;
            let reset = final(queue).jobs().last().request;
            &&& reset == (UploadRequest {
                progress: reset.progress,
                finished: false,
                error: None,
                ..before
            })
            &&& reset.progress.upload_id@ == before.upload.id@
            &&& reset.progress.total_size == before.upload.size
            &&& reset.progress.uploaded_bytes == 0
            &&& reset.progress.rate_bytes == 0
            &&& final(state).requests() == updated(old(state).requests(), reset)
            &&& final(queue).jobs() == old(queue).jobs().push(
                UploadQueueJob { request: reset, server, always_notify: false, retry: true },
            )
        },
{
    match state.get_request(upload_id) {
        None => false,
        Some(request) => {
            let reset = request.reset_progress();
            state.update_request(reset.clone());
            queue.push(UploadQueueJob { request: reset, server, always_notify: false, retry: true });
            true
        },
    }
}

/// Cancels an upload: drops its waiting jobs from the queue, stops its
/// transfer if one is under way (its token is signaled and forgotten), and
/// removes it from the registry; lists the uploads still in progress,
/// newest first.
pub fn cancel_upload(
    state: &mut UploadsState,
    queue: &mut UploadQueue,
    cancellations: &mut UploadCancellations,
    upload_id: String,
) -> (listed: Vec<UploadRequest>)
    requires
        old(state).wf(),
        old(cancellations).wf(),
    ensures
        final(state).wf(),
        final(cancellations).wf(),
        final(queue).jobs() == old(queue).jobs().filter(job_is_not_for(upload_id@)),
        final(cancellations).tokens() == old(cancellations).tokens().remove(upload_id@),
        final(cancellations).signaled() == if old(cancellations).tokens().contains_key(upload_id@) {
            old(cancellations).signaled().insert(upload_id@)
        } else {
            old(cancellations).signaled()
        },
        final(state).requests() == deleted(old(state).requests(), upload_id@),
        !has_request(final(state).requests(), upload_id@),
        listed_newest_first(listed@, final(state).requests()),
{
    queue.remove_upload_job(&upload_id);
    cancellations.cancel(upload_id.as_str());
    state.delete_request(upload_id)
}

/// The id of an upload to delete, as the user gives it: in hyphenated form
/// when it is a UUID, else the parse error's message.
pub fn parse_upload_id(upload_id: &str) -> (r: Result<String, String>)
    ensures
        string_result_view(r) == uuid_parse_result(upload_id@),
{
    parse_uuid(upload_id)
}

/// Ends the deletion of an upload once the server answered: when the server
/// deleted it, it leaves the registry and the uploads still in progress are
/// listed, newest first; when the server refused, its error is passed on
/// and the registry is left as it was.
pub fn finish_delete(state: &mut UploadsState, upload_id: String, deleted_on_server: Result<(), String>) -> (r: Result<
    Vec<UploadRequest>,
    String,
>)
    requires
        old(state).wf(),
    ensures
        final(state).wf(),
        match deleted_on_server {
            Ok(()) => r is Ok && final(state).requests() == deleted(old(state).requests(), upload_id@)
                && listed_newest_first(r->Ok_0@, final(state).requests()),
            Err(e) => r == Err::<Vec<UploadRequest>, String>(e) && final(state).requests() == old(
                state,
            ).requests(),
        },
{
    match deleted_on_server {
        Ok(()) => Ok(state.delete_request(upload_id)),
        Err(e) => Err(e),
    }
}

/// The id that progress reports carry when they stand for no upload (the
/// nil UUID).
pub const NIL_UPLOAD_ID: &'static str = "00000000-0000-0000-0000-000000000000";

/// Records a progress report on the upload it is for: the request with that
/// upload id gets the new progress. Reports for the nil id, or for an upload
/// no longer in progress, change nothing. Tells whether a request changed.
pub fn record_progress(state: &mut UploadsState, progress: Progress) -> (recorded: bool)
    requires
        old(state).wf(),
    ensures
        final(state).wf(),
        recorded == (progress.upload_id@ != NIL_UPLOAD_ID@ && has_request(
            old(state).requests(),
            progress.upload_id@,
        )),
        recorded ==> final(state).requests() == updated(
            old(state).requests(),
            UploadRequest { progress, ..lookup(old(state).requests(), progress.upload_id@)->0 },
        ),
        !recorded ==> final(state).requests() == old(state).requests(),
{
    if crate::text::str_eq(progress.upload_id.as_str(), NIL_UPLOAD_ID) {
        return false;
    }
    match state.get_request(progress.upload_id.clone()) {
        None => false,
        Some(request) => {
            proof {
                let i = index_of(old(state).requests(), progress.upload_id@);
                lemma_index_of_unique(old(state).requests(), i);
            }
            state.update_request(request.update_progress(progress));
            true
        },
    }
}

} // verus!
