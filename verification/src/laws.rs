//! Properties of the library that span several operations, proved from the
//! specifications that the operations meet.

use vstd::prelude::*;
use crate::client::{
    FileStatus, FileUploadError, FileInfoError, FILE_INFO_ERROR_NOT_EXISTS, info_error_code, info_error_message,
    upload_error_code, upload_error_message,
};
use crate::queue::{UploadQueueJob, job_is_not_for};
use crate::state::{added, deleted, has_request, ids_unique, index_of, lemma_index_of_unique, lookup, updated};
use crate::ids::is_canonical_id;
use crate::language::{
    FALLBACK_LANGUAGE, is_available_language, language_part_len, lemma_language_part_len, normalized_language,
    normalized_opt, resolved_language,
};
use crate::zip::{lemma_total_size_concat, requires_zip64, total_size};
use crate::text::is_ascii_lower;
use crate::server::{Server, ServerModel, server_read_from};
use crate::status::{Status, lemma_status_name_round_trip};
use crate::upload::{Upload, UploadModel, UploadRequest, upload_read_from, upload_stored_as};
use crate::worker::{
    QueuedUpload, UploadEvent, UploadOutcome, UploadStep, advances, answers, completed_request,
    failed_by, step_rank,
};

verus! {

/// Adding a request keeps upload ids unique.
pub proof fn law_add_keeps_ids_unique(reqs: Seq<UploadRequest>, r: UploadRequest)
    requires
        ids_unique(reqs),
    ensures
        ids_unique(added(reqs, r)),
{
    if !has_request(reqs, r.upload.id@) {
        let s = reqs.push(r);
        assert forall|i: int, j: int|
            0 <= i < s.len() && 0 <= j < s.len() && i != j implies #[trigger] s[i].upload.id@
            != #[trigger] s[j].upload.id@ by {
            if i == reqs.len() {
                assert(s[j] == reqs[j]);
                assert(reqs[j].upload.id@ != r.upload.id@);
            } else if j == reqs.len() {
                assert(s[i] == reqs[i]);
                assert(reqs[i].upload.id@ != r.upload.id@);
            } else {
                assert(s[i] == reqs[i] && s[j] == reqs[j]);
            }
        }
    }
}

/// After adding a request whose upload id was not held, looking that id up
/// finds exactly the added request.
pub proof fn law_lookup_after_add(reqs: Seq<UploadRequest>, r: UploadRequest)
    requires
        ids_unique(reqs),
        !has_request(reqs, r.upload.id@),
    ensures
        lookup(added(reqs, r), r.upload.id@) == Some(r),
{
    law_add_keeps_ids_unique(reqs, r);
    let s = reqs.push(r);
    lemma_index_of_unique(s, reqs.len() as int);
}

/// Adding a request for an upload id that is held already changes nothing:
/// the request held first stays.
pub proof fn law_add_does_not_overwrite(reqs: Seq<UploadRequest>, r: UploadRequest)
    requires
        has_request(reqs, r.upload.id@),
    ensures
        added(reqs, r) == reqs,
        lookup(added(reqs, r), r.upload.id@) == lookup(reqs, r.upload.id@),
{
}

/// After replacing a held request, looking its id up finds the replacement,
/// and every other request stays where and as it was.
pub proof fn law_lookup_after_update(reqs: Seq<UploadRequest>, r: UploadRequest)
    requires
        ids_unique(reqs),
        has_request(reqs, r.upload.id@),
    ensures
        lookup(updated(reqs, r), r.upload.id@) == Some(r),
        updated(reqs, r).len() == reqs.len(),
        forall|k: int|
            0 <= k < reqs.len() && reqs[k].upload.id@ != r.upload.id@ ==> #[trigger] updated(reqs, r)[k]
                == reqs[k],
{
    let i = index_of(reqs, r.upload.id@);
    let s = reqs.update(i, r);
    assert(ids_unique(s)) by {
        assert forall|a: int, b: int|
            0 <= a < s.len() && 0 <= b < s.len() && a != b implies #[trigger] s[a].upload.id@
            != #[trigger] s[b].upload.id@ by {
            if a != i && b != i {
                assert(s[a] == reqs[a] && s[b] == reqs[b]);
            } else if a == i {
                assert(s[b] == reqs[b]);
                assert(reqs[a].upload.id@ != reqs[b].upload.id@);
            } else {
                assert(s[a] == reqs[a]);
                assert(reqs[a].upload.id@ != reqs[b].upload.id@);
            }
        }
    }
    lemma_index_of_unique(s, i);
}

/// Replacing a request never brings in an upload id that was not held.
pub proof fn law_update_adds_nothing(reqs: Seq<UploadRequest>, r: UploadRequest, id: Seq<char>)
    requires
        ids_unique(reqs),
    ensures
        has_request(updated(reqs, r), id) == has_request(reqs, id),
{
    if has_request(reqs, r.upload.id@) {
        let i = index_of(reqs, r.upload.id@);
        let s = reqs.update(i, r);
        if has_request(s, id) {
            let k = choose|k: int| 0 <= k < s.len() && #[trigger] s[k].upload.id@ == id;
            if k == i {
                assert(reqs[i].upload.id@ == id);
            } else {
                assert(reqs[k] == s[k]);
            }
        }
        if has_request(reqs, id) {
            let k = choose|k: int| 0 <= k < reqs.len() && #[trigger] reqs[k].upload.id@ == id;
            if k == i {
                assert(s[i].upload.id@ == id);
            } else {
                assert(reqs[k] == s[k]);
            }
        }
    }
}

/// After removing an upload id, it is not held any more, and looking it up
/// finds nothing.
pub proof fn law_lookup_after_delete(reqs: Seq<UploadRequest>, id: Seq<char>)
    requires
        ids_unique(reqs),
    ensures
        !has_request(deleted(reqs, id), id),
        lookup(deleted(reqs, id), id) is None,
{
    if has_request(reqs, id) {
        let i = index_of(reqs, id);
        let s = reqs.remove(i);
        if has_request(s, id) {
            let k = choose|k: int| 0 <= k < s.len() && #[trigger] s[k].upload.id@ == id;
            let k0 = if k < i { k } else { k + 1 };
            assert(s[k] == reqs[k0]);
            assert(reqs[k0].upload.id@ != reqs[i].upload.id@);
        }
    }
}

/// Removing an upload id leaves every other held id held.
pub proof fn law_delete_keeps_others(reqs: Seq<UploadRequest>, id: Seq<char>, other: Seq<char>)
    requires
        ids_unique(reqs),
        other != id,
        has_request(reqs, other),
    ensures
        has_request(deleted(reqs, id), other),
{
    if has_request(reqs, id) {
        let i = index_of(reqs, id);
        let s = reqs.remove(i);
        let k = choose|k: int| 0 <= k < reqs.len() && #[trigger] reqs[k].upload.id@ == other;
        assert(k != i);
        let k1 = if k < i { k } else { k - 1 };
        assert(s[k1] == reqs[k]);
    }
}

/// Canceling leaves no waiting job for the canceled upload, and the jobs of
/// other uploads wait in the same order.
pub proof fn law_cancel_clears_queue(jobs: Seq<UploadQueueJob>, id: Seq<char>)
    ensures
        forall|k: int|
            0 <= k < jobs.filter(job_is_not_for(id)).len() ==> #[trigger] jobs.filter(
                job_is_not_for(id),
            )[k].request.upload.id@ != id,
{
    let kept = jobs.filter(job_is_not_for(id));
    broadcast use vstd::seq_lib::group_filter_ensures;
    assert forall|k: int| 0 <= k < kept.len() implies #[trigger] kept[k].request.upload.id@ != id by {
        assert(job_is_not_for(id)(kept[k]));
    }
}

/// Every answer that a step waits for moves the upload to a step that can
/// wait for fewer answers; any other answer changes nothing. So a queued
/// upload is done with after at most three answers.
pub proof fn law_worker_progresses(
    old: Seq<UploadRequest>,
    new: Seq<UploadRequest>,
    before: QueuedUpload,
    event: UploadEvent,
    after: QueuedUpload,
)
    requires
        advances(old, new, before, event, after),
    ensures
        answers(before.step, event) ==> step_rank(after.step) < step_rank(before.step),
        !answers(before.step, event) ==> new == old && after == before,
{
}

/// An upload that is done with stays done with, and nothing changes.
pub proof fn law_finished_is_final(
    old: Seq<UploadRequest>,
    new: Seq<UploadRequest>,
    before: QueuedUpload,
    event: UploadEvent,
    after: QueuedUpload,
)
    requires
        before.step is Finished,
        advances(old, new, before, event, after),
    ensures
        new == old,
        after == before,
{
}

/// On a retry, when the server reports the file uploaded already, the
/// upload is completed at once, without another transfer: it ends finished,
/// without error, in status `Completed`.
pub proof fn law_retry_of_uploaded_file_completes(
    old: Seq<UploadRequest>,
    new: Seq<UploadRequest>,
    before: QueuedUpload,
    after: QueuedUpload,
)
    requires
        before.step == UploadStep::CheckInfo,
        has_request(old, before.job.request.upload.id@),
        advances(
            old,
            new,
            before,
            UploadEvent::InfoChecked(Ok::<FileStatus, FileInfoError>(FileStatus::Uploaded)),
            after,
        ),
    ensures
        after.step matches UploadStep::Finished(UploadOutcome::Completed(r)) && r.finished
            && r.error is None && r.upload.status == Status::Completed,
        after.step !is Transfer,
{
}

/// A transfer that ends in success leaves the upload completed: finished,
/// without error, in status `Completed`, and held so in the registry.
pub proof fn law_transfer_success_completes(
    old: Seq<UploadRequest>,
    new: Seq<UploadRequest>,
    before: QueuedUpload,
    after: QueuedUpload,
)
    requires
        ids_unique(old),
        before.step == UploadStep::Transfer,
        has_request(old, before.job.request.upload.id@),
        advances(old, new, before, UploadEvent::Transferred(Ok::<(), FileUploadError>(())), after),
    ensures
        after.step matches UploadStep::Finished(UploadOutcome::Completed(r)) && r.finished
            && r.error is None && r.upload.status == Status::Completed && lookup(
            new,
            before.job.request.upload.id@,
        ) == Some(r),
{
    let id = before.job.request.upload.id@;
    let r = lookup(old, id)->0;
    let i = index_of(old, id);
    lemma_index_of_unique(old, i);
    law_lookup_after_update(old, completed_request(r));
}

/// A canceled transfer leaves the upload aborted: canceled, finished,
/// without error, in status `Aborted`.
pub proof fn law_canceled_transfer_aborts(
    old: Seq<UploadRequest>,
    new: Seq<UploadRequest>,
    before: QueuedUpload,
    after: QueuedUpload,
)
    requires
        before.step == UploadStep::Transfer,
        has_request(old, before.job.request.upload.id@),
        advances(old, new, before, UploadEvent::Transferred(Err(FileUploadError::Canceled)), after),
    ensures
        after.step matches UploadStep::Finished(UploadOutcome::Failed(r)) && r.canceled && r.finished
            && r.error is None && r.upload.status == Status::Aborted,
{
}

/// A transfer that fails for any other reason leaves the upload failed:
/// finished, not canceled anew, in status `Failed`, with the error's code
/// and message.
pub proof fn law_failed_transfer_records_error(
    old: Seq<UploadRequest>,
    new: Seq<UploadRequest>,
    before: QueuedUpload,
    e: FileUploadError,
    after: QueuedUpload,
)
    requires
        before.step == UploadStep::Transfer,
        e !is Canceled,
        has_request(old, before.job.request.upload.id@),
        advances(old, new, before, UploadEvent::Transferred(Err(e)), after),
    ensures
        after.step matches UploadStep::Finished(UploadOutcome::Failed(r)) && r.finished
            && r.upload.status == Status::Failed && r.error is Some && r.error->0.code@
            == upload_error_code(e) && r.error->0.message@ == upload_error_message(e)
            && r.canceled == lookup(old, before.job.request.upload.id@)->0.canceled,
{
}

/// The worker only ever changes the request of the upload it works on:
/// every other request stays where and as it was.
pub proof fn law_worker_touches_one_request(
    old: Seq<UploadRequest>,
    new: Seq<UploadRequest>,
    before: QueuedUpload,
    event: UploadEvent,
    after: QueuedUpload,
)
    requires
        ids_unique(old),
        before.request.upload.id@ == before.job.request.upload.id@,
        advances(old, new, before, event, after),
    ensures
        new.len() == old.len(),
        forall|k: int|
            0 <= k < old.len() && old[k].upload.id@ != before.job.request.upload.id@ ==> #[trigger] new[k]
                == old[k],
{
    let id = before.job.request.upload.id@;
    match after.step {
        UploadStep::Finished(UploadOutcome::Completed(r)) => {
            if new != old {
                law_step_changes_only(old, r, id);
            }
        },
        UploadStep::Finished(UploadOutcome::Failed(r)) => {
            if new != old {
                law_step_changes_only(old, r, id);
            }
        },
        UploadStep::Finished(UploadOutcome::Rejected(r)) => {
            if new != old {
                law_step_changes_only(old, r, id);
            }
        },
        _ => {},
    }
}

proof fn law_step_changes_only(old: Seq<UploadRequest>, r: UploadRequest, id: Seq<char>)
    requires
        ids_unique(old),
    ensures
        updated(old, r).len() == old.len(),
        forall|k: int|
            0 <= k < old.len() && old[k].upload.id@ != r.upload.id@ ==> #[trigger] updated(old, r)[k]
                == old[k],
{
    if has_request(old, r.upload.id@) {
        law_lookup_after_update(old, r);
    }
}

/// Storing an upload in the local history and reading it back gives the
/// same upload, when its ids are UUIDs in the hyphenated form that reading
/// gives back (as the ids the client draws are).
pub proof fn law_upload_storage_round_trip(u: Upload, m: UploadModel, v: Upload)
    requires
        is_canonical_id(u.id@),
        is_canonical_id(u.server_id@),
        upload_stored_as(u, m),
        upload_read_from(m, v),
    ensures
        v.id@ == u.id@,
        v.server_id@ == u.server_id@,
        v == (Upload { id: v.id, server_id: v.server_id, ..u }),
{
    lemma_status_name_round_trip(u.status);
    let size = u.size;
    assert((size as i64) as u64 == size) by (bit_vector);
}

/// Storing a server and reading it back gives the same server, when its id
/// is a UUID in hyphenated form and it has no alias switch and no
/// connection time (which the stored row does not keep).
pub proof fn law_server_storage_round_trip(s: Server, v: Server)
    requires
        is_canonical_id(s.id@),
        !s.use_alias,
        s.connected_at is None,
        server_read_from(
            (ServerModel {
                id: s.id,
                url: s.url,
                name: s.name,
                icon: s.icon,
                alias: s.alias,
                added_at: s.added_at,
                testing: s.testing,
                connected: s.connected,
                healthy: s.healthy,
            }),
            v,
        ),
    ensures
        v.id@ == s.id@,
        v == (Server { id: v.id, ..s }),
{
}

/// The interface language in use is always one the interface is translated
/// into, whatever is configured and whatever the system's locale is.
pub proof fn law_resolved_language_is_available(configured: Option<String>, system_locale: Option<String>)
    ensures
        is_available_language(resolved_language(configured, system_locale)),
{
    reveal_strlit("en");
    assert(FALLBACK_LANGUAGE@ == "en"@);
}

/// Normalizing a normalized language gives it back.
pub proof fn law_normalized_language_is_stable(locale: Seq<char>)
    requires
        normalized_language(locale) is Some,
    ensures
        normalized_language(normalized_language(locale)->0) == normalized_language(locale),
{
    let l = normalized_language(locale)->0;
    reveal_strlit("en");
    reveal_strlit("es");
    assert(l == "en"@ || l == "es"@);
    lemma_language_part_len(l, l.len() as int);
    assert(l.take(language_part_len(l) as int) =~= l);
    assert(is_ascii_lower(l));
}

/// A registration that the server refuses, or that never reaches it, ends
/// the upload failed as a failed transfer does: finished, in status
/// `Failed`, with the error's code and message (for any error but a
/// cancellation), and held so in the registry. It never ends completed.
pub proof fn law_failed_registration_fails(
    old: Seq<UploadRequest>,
    new: Seq<UploadRequest>,
    before: QueuedUpload,
    e: FileUploadError,
    after: QueuedUpload,
)
    requires
        ids_unique(old),
        before.step == UploadStep::Register,
        e !is Canceled,
        has_request(old, before.job.request.upload.id@),
        advances(old, new, before, UploadEvent::Registered(Err(e)), after),
    ensures
        after.step matches UploadStep::Finished(UploadOutcome::Failed(r)) && r.finished
            && r.upload.status == Status::Failed && r.error is Some && r.error->0.code@
            == upload_error_code(e) && r.error->0.message@ == upload_error_message(e)
            && lookup(new, before.job.request.upload.id@) == Some(r),
        e matches FileUploadError::ClientError { message } ==> after.step matches UploadStep::Finished(
            UploadOutcome::Failed(r),
        ) && r.error->0.code@ == "client_error"@ && r.error->0.message@ == message@,
        !(after.step matches UploadStep::Finished(UploadOutcome::Completed(_))),
{
    let id = before.job.request.upload.id@;
    let r = lookup(old, id)->0;
    let i = index_of(old, id);
    lemma_index_of_unique(old, i);
    let failed = after.step->Finished_0->Failed_0;
    law_lookup_after_update(old, failed);
}

/// On a retry, an answer about the file that is an error other than "not
/// found" (the server refused, or could not be reached) rejects the upload:
/// finished, in status `Failed`, with the error's code and message, and held
/// so in the registry. It never ends completed.
pub proof fn law_failed_info_rejects_retry(
    old: Seq<UploadRequest>,
    new: Seq<UploadRequest>,
    before: QueuedUpload,
    e: FileInfoError,
    after: QueuedUpload,
)
    requires
        ids_unique(old),
        before.step == UploadStep::CheckInfo,
        info_error_code(e) != FILE_INFO_ERROR_NOT_EXISTS@,
        before.request.upload.id@ == before.job.request.upload.id@,
        has_request(old, before.job.request.upload.id@),
        advances(old, new, before, UploadEvent::InfoChecked(Err(e)), after),
    ensures
        after.step matches UploadStep::Finished(UploadOutcome::Rejected(r)) && r.finished
            && r.upload.status == Status::Failed && r.error is Some && r.error->0.code@
            == info_error_code(e) && r.error->0.message@ == info_error_message(e)
            && lookup(new, before.job.request.upload.id@) == Some(r),
        e matches FileInfoError::ClientError { message } ==> after.step matches UploadStep::Finished(
            UploadOutcome::Rejected(r),
        ) && r.error->0.code@ == "client_error"@ && r.error->0.message@ == message@,
        !(after.step matches UploadStep::Finished(UploadOutcome::Completed(_))),
{
    let rejected = after.step->Finished_0->Rejected_0;
    law_lookup_after_update(old, rejected);
}

/// The worker reports an upload completed only on the server's word: the
/// server said the file is uploaded already (a retry), or the transfer
/// succeeded.
pub proof fn law_completion_needs_the_server(
    old: Seq<UploadRequest>,
    new: Seq<UploadRequest>,
    before: QueuedUpload,
    event: UploadEvent,
    after: QueuedUpload,
)
    requires
        before.step !is Finished,
        advances(old, new, before, event, after),
        after.step matches UploadStep::Finished(UploadOutcome::Completed(_)),
    ensures
        (before.step == UploadStep::CheckInfo && event == UploadEvent::InfoChecked(
            Ok::<FileStatus, FileInfoError>(FileStatus::Uploaded),
        )) || (before.step == UploadStep::Transfer && event matches UploadEvent::Transferred(Ok(_))),
{
    let id = before.job.request.upload.id@;
    let done = after.step matches UploadStep::Finished(UploadOutcome::Completed(_));
    match before.step {
        UploadStep::CheckInfo => match event {
            UploadEvent::InfoChecked(Ok(FileStatus::Uploaded)) => {},
            UploadEvent::InfoChecked(Ok(FileStatus::WaitingForUpload)) => {
                assert(after.step == UploadStep::Transfer);
            },
            UploadEvent::InfoChecked(Err(e)) => {
                assert(!done);
            },
            _ => {
                assert(after.step == before.step);
            },
        },
        UploadStep::Register => match event {
            UploadEvent::Registered(Ok(())) => {
                assert(after.step == UploadStep::Transfer);
            },
            UploadEvent::Registered(Err(e)) => {
                assert(!done);
            },
            _ => {
                assert(after.step == before.step);
            },
        },
        UploadStep::Transfer => match event {
            UploadEvent::Transferred(Ok(())) => {},
            UploadEvent::Transferred(Err(e)) => {
                assert(!done);
            },
            _ => {
                assert(after.step == before.step);
            },
        },
        UploadStep::Finished(_) => {},
    }
}

/// The stored form of an upload keeps each field in its own column.
pub proof fn law_stored_upload_columns(u: Upload, m: UploadModel)
    requires
        upload_stored_as(u, m),
    ensures
        m.id == u.id,
        m.name == u.name,
        m.mime_type == u.mime_type,
        m.path == u.path,
        m.url == u.url,
        m.server_id == u.server_id,
        m.created_at == u.created_at,
{
}

/// Reading a stored upload takes each field from its own column.
pub proof fn law_read_upload_columns(m: UploadModel, u: Upload)
    requires
        upload_read_from(m, u),
    ensures
        u.name == m.name,
        u.mime_type == m.mime_type,
        u.path == m.path,
        u.url == m.url,
        u.created_at == m.created_at,
{
}

/// Reading a stored server takes each field from its own column.
pub proof fn law_read_server_columns(m: ServerModel, s: Server)
    requires
        server_read_from(m, s),
    ensures
        s.url == m.url,
        s.name == m.name,
        s.icon == m.icon,
        s.alias == m.alias,
        s.added_at == m.added_at,
        s.testing == m.testing,
        s.connected == m.connected,
        s.healthy == m.healthy,
{
}

/// Whether an archive needs ZIP64 depends on the sum of all entry sizes:
/// it does exactly when that sum plus 256 bytes per entry reaches the
/// threshold `u32::MAX`.
pub proof fn law_zip64_by_total_size(sizes: Seq<u64>)
    ensures
        requires_zip64(sizes) == (total_size(sizes) + 256 * sizes.len() >= 0xFFFF_FFFF),
{
    lemma_total_size_concat(Seq::<u64>::empty(), sizes);
    assert(Seq::<u64>::empty() + sizes =~= sizes);
}

/// Each file counts with its whole size: the decision for a walk with one
/// more file of size `x` is taken on the sizes before it, `x` and the sizes
/// after it, all added up. So files that are each small can together
/// require ZIP64.
pub proof fn law_zip64_adds_every_file(before: Seq<u64>, x: u64, after: Seq<u64>)
    ensures
        requires_zip64(before + seq![x] + after) == (total_size(before) + x + total_size(after) + 256 * (
        before.len() + 1 + after.len()) >= 0xFFFF_FFFF),
{
    let s = before + seq![x] + after;
    law_zip64_by_total_size(s);
    lemma_total_size_concat(before + seq![x], after);
    lemma_total_size_concat(before, seq![x]);
    lemma_total_size_concat(Seq::<u64>::empty(), seq![x]);
    assert(Seq::<u64>::empty() + seq![x] =~= seq![x]);
    assert(total_size(seq![x]) == x) by {
        assert(seq![x].drop_last() =~= Seq::<u64>::empty());
    }
}

/// A configured language that is available is the language in use,
/// whatever the system's locale.
pub proof fn law_configured_language_wins(configured: Option<String>, system_locale: Option<String>, l: Seq<char>)
    requires
        normalized_opt(configured) == Some(l),
    ensures
        resolved_language(configured, system_locale) == l,
{
}

/// With no available language configured, the system's language is used
/// when it is available, else English.
pub proof fn law_system_language_then_english(configured: Option<String>, system_locale: Option<String>)
    requires
        normalized_opt(configured) is None,
    ensures
        normalized_opt(system_locale) matches Some(l) ==> resolved_language(configured, system_locale) == l,
        normalized_opt(system_locale) is None ==> resolved_language(configured, system_locale) == "en"@,
{
    reveal_strlit("en");
}

} // verus!
