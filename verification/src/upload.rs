//! Uploads, their progress, and the request that carries one upload through
//! the client.

use vstd::prelude::*;
use crate::errors::DbError;
use crate::ids::{is_canonical_id, new_random_id, parse_uuid, utc_now_micros, uuid_parse_result};
use crate::server::Server;
use crate::mime_type::{MimeTypeDetectError, detect_error_message};
use crate::status::{Status, status_from_name, status_name};

verus! {

/// How far the transfer of one upload has come. The fraction shown to the
/// user is `uploaded_bytes / total_size` (0 when the size is 0); it is
/// derived from these fields where it is displayed.
#[derive(Debug)]
pub struct Progress {
    pub upload_id: String,
    pub total_size: u64,
    pub uploaded_bytes: u64,
    pub rate_bytes: u64,
}

impl Clone for Progress {
    fn clone(&self) -> (r: Self)
        ensures
            r == *self,
    {
        Progress {
            upload_id: self.upload_id.clone(),
            total_size: self.total_size,
            uploaded_bytes: self.uploaded_bytes,
            rate_bytes: self.rate_bytes,
        }
    }
}

/// The progress of an upload of the given id and size before any byte is sent.
pub open spec fn initial_progress(upload_id: Seq<char>, total_size: u64, p: Progress) -> bool {
    &&& p.upload_id@ == upload_id
    &&& p.total_size == total_size
    &&& p.uploaded_bytes == 0
    &&& p.rate_bytes == 0
}

impl Progress {
    /// The progress of a transfer that has not started.
    pub fn new(upload_id: String, total_size: u64) -> (p: Progress)
        ensures
            initial_progress(upload_id@, total_size, p),
    {
        Progress { upload_id, total_size, uploaded_bytes: 0, rate_bytes: 0 }
    }

    /// The progress of an upload that has not started.
    pub fn from_upload(upload: &Upload) -> (p: Progress)
        ensures
            initial_progress(upload.id@, upload.size, p),
    {
        Progress::new(upload.id.clone(), upload.size)
    }
}

/// A file to be uploaded to a server, as the client tracks it. `created_at`
/// is in microseconds since the Unix epoch.
#[derive(Debug)]
pub struct Upload {
    pub id: String,
    pub name: String,
    pub size: u64,
    pub mime_type: String,
    pub path: String,
    pub url: String,
    pub created_at: i64,
    pub status: Status,
    pub server_id: String,
}

impl Clone for Upload {
    fn clone(&self) -> (r: Self)
        ensures
            r == *self,
    {
        Upload {
            id: self.id.clone(),
            name: self.name.clone(),
            size: self.size,
            mime_type: self.mime_type.clone(),
            path: self.path.clone(),
            url: self.url.clone(),
            created_at: self.created_at,
            status: self.status,
            server_id: self.server_id.clone(),
        }
    }
}

/// The link under which a server shares an upload: `<server url>/u/<id>`.
pub open spec fn share_url(server_url: Seq<char>, id: Seq<char>) -> Seq<char> {
    server_url + "/u/"@ + id
}

/// A new pending upload of the given file to the given server.
pub open spec fn new_upload(
    id: Seq<char>,
    name: Seq<char>,
    size: u64,
    mime_type: Seq<char>,
    path: Seq<char>,
    server: Server,
    created_at: i64,
    u: Upload,
) -> bool {
    &&& u.id@ == id
    &&& u.name@ == name
    &&& u.size == size
    &&& u.mime_type@ == mime_type
    &&& u.path@ == path
    &&& u.url@ == share_url(server.url@, id)
    &&& u.created_at == created_at
    &&& u.status == Status::Pending
    &&& u.server_id@ == server.id@
}

impl Upload {
    /// A pending upload created at the given time.
    pub fn new_created_at(
        id: String,
        name: String,
        size: u64,
        mime_type: String,
        path: String,
        server: &Server,
        created_at: i64,
    ) -> (u: Upload)
        ensures
            new_upload(id@, name@, size, mime_type@, path@, *server, created_at, u),
    {
        let url = server.url.clone().concat("/u/").concat(id.as_str());
        Upload {
            id,
            name,
            size,
            mime_type,
            path,
            url,
            created_at,
            status: Status::Pending,
            server_id: server.id.clone(),
        }
    }

    /// A pending upload created now.
    pub fn new(id: String, name: String, size: u64, mime_type: String, path: String, server: Server) -> (u: Upload)
        ensures
            new_upload(id@, name@, size, mime_type@, path@, server, u.created_at, u),
    {
        let now = utc_now_micros();
        Upload::new_created_at(id, name, size, mime_type, path, &server, now)
    }
}

/// Why an upload failed: a code and a message for the user.
#[derive(Debug)]
pub struct UploadRequestError {
    pub code: String,
    pub message: String,
}

impl Clone for UploadRequestError {
    fn clone(&self) -> (r: Self)
        ensures
            r == *self,
    {
        UploadRequestError { code: self.code.clone(), message: self.message.clone() }
    }
}

/// An upload in flight, with its progress and outcome.
#[derive(Debug)]
pub struct UploadRequest {
    pub progress: Progress,
    pub error: Option<UploadRequestError>,
    pub upload: Upload,
    pub finished: bool,
    pub canceled: bool,
    pub chunked: bool,
    pub chunk_size: u64,
}

fn clone_opt_error(e: &Option<UploadRequestError>) -> (r: Option<UploadRequestError>)
    ensures
        r == *e,
{
    match e {
        Some(x) => Some(x.clone()),
        None => None,
    }
}

impl Clone for UploadRequest {
    fn clone(&self) -> (r: Self)
        ensures
            r == *self,
    {
        UploadRequest {
            progress: self.progress.clone(),
            error: clone_opt_error(&self.error),
            upload: self.upload.clone(),
            finished: self.finished,
            canceled: self.canceled,
            chunked: self.chunked,
            chunk_size: self.chunk_size,
        }
    }
}

/// The request a finished upload leaves behind: finished without error.
pub open spec fn finished_request(r: UploadRequest) -> UploadRequest {
    UploadRequest { finished: true, error: None, ..r }
}

/// The request a failed upload leaves behind: finished with the error.
pub open spec fn failed_request(r: UploadRequest, e: UploadRequestError) -> UploadRequest {
    UploadRequest { finished: true, error: Some(e), ..r }
}

/// The request a canceled upload leaves behind: canceled, finished, no error.
pub open spec fn canceled_request(r: UploadRequest) -> UploadRequest {
    UploadRequest { canceled: true, finished: true, error: None, ..r }
}

impl UploadRequest {
    /// A request for a new pending upload created at the given time: no
    /// progress yet, no error, sent in one piece.
    pub fn new_created_at(
        id: String,
        name: String,
        size: u64,
        mime_type: String,
        path: String,
        server: &Server,
        created_at: i64,
    ) -> (r: UploadRequest)
        ensures
            initial_progress(id@, size, r.progress),
            r.error is None,
            new_upload(id@, name@, size, mime_type@, path@, *server, created_at, r.upload),
            !r.finished,
            !r.canceled,
            !r.chunked,
            r.chunk_size == 0,
    {
        let progress = Progress::new(id.clone(), size);
        let upload = Upload::new_created_at(id, name, size, mime_type, path, server, created_at);
        UploadRequest {
            progress,
            error: None,
            upload,
            finished: false,
            canceled: false,
            chunked: false,
            chunk_size: 0,
        }
    }

    /// A request for a new pending upload created now.
    pub fn new(id: String, name: String, size: u64, mime_type: String, path: String, server: Server) -> (r: UploadRequest)
        ensures
            initial_progress(id@, size, r.progress),
            r.error is None,
            new_upload(id@, name@, size, mime_type@, path@, server, r.upload.created_at, r.upload),
            !r.finished,
            !r.canceled,
            !r.chunked,
            r.chunk_size == 0,
    {
        let now = utc_now_micros();
        UploadRequest::new_created_at(id, name, size, mime_type, path, &server, now)
    }

    /// The same request, to be sent in chunks of the given size.
    pub fn upload_by_chunks(&self, chunk_size: u64) -> (r: UploadRequest)
        ensures
            r == (UploadRequest { chunked: true, chunk_size, ..*self }),
    {
        let mut this = self.clone();
        this.chunked = true;
        this.chunk_size = chunk_size;
        this
    }

    /// The same request with the given progress.
    pub fn update_progress(&self, progress: Progress) -> (r: UploadRequest)
        ensures
            r == (UploadRequest { progress, ..*self }),
    {
        let mut this = self.clone();
        this.progress = progress;
        this
    }

    /// The same request, finished without error.
    pub fn finish(&self) -> (r: UploadRequest)
        ensures
            r == finished_request(*self),
    {
        let mut this = self.clone();
        this.finished = true;
        this.error = None;
        this
    }

    /// The same request, finished with the given error code and message.
    pub fn finish_with_error(&self, code: String, error: String) -> (r: UploadRequest)
        ensures
            r.error is Some,
            r.error->0.code@ == code@,
            r.error->0.message@ == error@,
            r == failed_request(*self, r.error->0),
    {
        let mut this = self.clone();
        this.error = Some(UploadRequestError { code, message: error });
        this.finished = true;
        this
    }

    /// The same request, canceled.
    pub fn canceled(&self) -> (r: UploadRequest)
        ensures
            r == canceled_request(*self),
    {
        let mut this = self.clone();
        this.canceled = true;
        this.finished = true;
        this.error = None;
        this
    }

    /// The same request, ready to be sent again: progress back to the start,
    /// not finished, no error.
    pub fn reset_progress(&self) -> (r: UploadRequest)
        ensures
            initial_progress(self.upload.id@, self.upload.size, r.progress),
            r == (UploadRequest { progress: r.progress, finished: false, error: None, ..*self }),
    {
        let mut this = self.clone();
        this.progress = Progress::from_upload(&this.upload);
        this.finished = false;
        this.error = None;
        this
    }
}

/// The progress of a transfer as the sender measures it: besides what a
/// `Progress` tells, the byte count at the previous measure
/// (`last_uploaded_bytes`), from which the rate is derived.
#[derive(Debug)]
pub struct ProgressTrack {
    pub upload_id: String,
    pub total_size: u64,
    pub uploaded_bytes: u64,
    pub rate_bytes: u64,
    pub last_uploaded_bytes: u64,
}

impl Clone for ProgressTrack {
    fn clone(&self) -> (r: Self)
        ensures
            r == *self,
    {
        ProgressTrack {
            upload_id: self.upload_id.clone(),
            total_size: self.total_size,
            uploaded_bytes: self.uploaded_bytes,
            rate_bytes: self.rate_bytes,
            last_uploaded_bytes: self.last_uploaded_bytes,
        }
    }
}

impl ProgressTrack {
    /// The track of a transfer that has not started.
    pub fn new(upload_id: String, total_size: u64) -> (t: ProgressTrack)
        ensures
            t.upload_id@ == upload_id@,
            t.total_size == total_size,
            t.uploaded_bytes == 0,
            t.rate_bytes == 0,
            t.last_uploaded_bytes == 0,
    {
        ProgressTrack { upload_id, total_size, uploaded_bytes: 0, rate_bytes: 0, last_uploaded_bytes: 0 }
    }

    /// Records a new byte count: the rate is the growth since the previous
    /// measure (0 if the count went down), and this count becomes the
    /// previous one. Gives back the track as it now stands.
    pub fn update(&mut self, uploaded_bytes: u64) -> (r: ProgressTrack)
        ensures
            final(self).upload_id == old(self).upload_id,
            final(self).total_size == old(self).total_size,
            final(self).uploaded_bytes == uploaded_bytes,
            final(self).rate_bytes == if uploaded_bytes >= old(self).last_uploaded_bytes {
                uploaded_bytes - old(self).last_uploaded_bytes
            } else {
                0
            },
            final(self).last_uploaded_bytes == uploaded_bytes,
            r == *final(self),
    {
        self.uploaded_bytes = uploaded_bytes;
        self.rate_bytes = uploaded_bytes.saturating_sub(self.last_uploaded_bytes);
        self.last_uploaded_bytes = uploaded_bytes;
        self.clone()
    }

    /// The progress this track reports.
    pub fn to_progress(&self) -> (p: Progress)
        ensures
            p.upload_id == self.upload_id,
            p.total_size == self.total_size,
            p.uploaded_bytes == self.uploaded_bytes,
            p.rate_bytes == self.rate_bytes,
    {
        Progress {
            upload_id: self.upload_id.clone(),
            total_size: self.total_size,
            uploaded_bytes: self.uploaded_bytes,
            rate_bytes: self.rate_bytes,
        }
    }
}

/// The byte count after a chunk of the given length was sent: the sum,
/// never beyond the total size.
pub fn advance_uploaded_bytes(uploaded_bytes: u64, sent: u64, total_size: u64) -> (r: u64)
    requires
        uploaded_bytes + sent <= u64::MAX,
    ensures
        r == if uploaded_bytes + sent <= total_size {
            uploaded_bytes + sent
        } else {
            total_size as int
        },
{
    let sum = uploaded_bytes + sent;
    if sum <= total_size {
        sum
    } else {
        total_size
    }
}

/// Bytes in a mebibyte, the unit of the chunk-size setting.
pub const MEBIBYTE: u64 = 1048576;

/// The chunk size of chunked uploads, in bytes: the setting (in MiB) when it
/// reads as a number, else the given default.
pub fn chunk_size_from_setting(setting_mib: Option<u64>, default_size: u64) -> (r: u64)
    requires
        setting_mib matches Some(m) ==> m * MEBIBYTE <= u64::MAX,
    ensures
        r == match setting_mib {
            Some(m) => m * MEBIBYTE,
            None => default_size as int,
        },
{
    match setting_mib {
        Some(m) => m * MEBIBYTE,
        None => default_size,
    }
}

/// An upload as the local upload history stores it: ids as text, the size
/// as a signed number, the status by its wire name.
#[derive(Debug)]
pub struct UploadModel {
    pub id: String,
    pub name: String,
    pub size: i64,
    pub mime_type: String,
    pub path: String,
    pub url: String,
    pub server_id: String,
    pub created_at: i64,
    pub status: String,
}

/// `m` is the stored form of `u`: the size bit for bit as a signed number,
/// the status by its wire name, the other fields as they are.
pub open spec fn upload_stored_as(u: Upload, m: UploadModel) -> bool {
    &&& m.id == u.id
    &&& m.name == u.name
    &&& m.size == u.size as i64
    &&& m.mime_type == u.mime_type
    &&& m.path == u.path
    &&& m.url == u.url
    &&& m.server_id == u.server_id
    &&& m.created_at == u.created_at
    &&& m.status@ == status_name(u.status)
}

/// A random size for test uploads: `rand::random::<u64>()`. Trusted to
/// return; nothing is claimed of the value, which is random.
#[verifier::external_body]
fn random_size() -> (n: u64) {
    rand::random::<u64>()
}

impl Upload {
    /// An upload of a test archive to the test server, with a random id and
    /// size.
    pub fn test() -> (u: Upload)
        ensures
            u.name@ == "test.zip"@,
            u.mime_type@ == "application/zip"@,
            u.path@ == "/path/to/zip"@,
            u.status == Status::Pending,
            is_canonical_id(u.id@),
            is_canonical_id(u.server_id@),
    {
        Upload::new(
            new_random_id(),
            String::from_str("test.zip"),
            random_size(),
            String::from_str("application/zip"),
            String::from_str("/path/to/zip"),
            Server::test(),
        )
    }

    /// The stored form of this upload; the size is stored bit for bit, as
    /// a signed number.
    pub fn to_model(self) -> (m: UploadModel)
        ensures
            upload_stored_as(self, m),
    {
        UploadModel {
            id: self.id,
            name: self.name,
            size: self.size as i64,
            mime_type: self.mime_type,
            path: self.path,
            url: self.url,
            server_id: self.server_id,
            created_at: self.created_at,
            status: self.status.to_string(),
        }
    }
}

impl Clone for UploadModel {
    fn clone(&self) -> (r: Self)
        ensures
            r == *self,
    {
        UploadModel {
            id: self.id.clone(),
            name: self.name.clone(),
            size: self.size,
            mime_type: self.mime_type.clone(),
            path: self.path.clone(),
            url: self.url.clone(),
            server_id: self.server_id.clone(),
            created_at: self.created_at,
            status: self.status.clone(),
        }
    }
}

/// Whether a stored upload can be read back: both its ids parse as UUIDs.
pub open spec fn upload_model_readable(m: UploadModel) -> bool {
    uuid_parse_result(m.id@) is Ok && uuid_parse_result(m.server_id@) is Ok
}

/// `u` is the upload that the readable row `m` holds: the ids in hyphenated
/// form, the size read back bit for bit, an unknown status read as
/// `Failed`, the other fields as they are.
pub open spec fn upload_read_from(m: UploadModel, u: Upload) -> bool {
    &&& u.id@ == uuid_parse_result(m.id@)->Ok_0
    &&& u.name == m.name
    &&& u.size == m.size as u64
    &&& u.mime_type == m.mime_type
    &&& u.path == m.path
    &&& u.url == m.url
    &&& u.created_at == m.created_at
    &&& u.status == status_from_name(m.status@)
    &&& u.server_id@ == uuid_parse_result(m.server_id@)->Ok_0
}

/// The rows that can be read back, in order.
pub open spec fn readable_upload_models(models: Seq<UploadModel>) -> Seq<UploadModel> {
    models.filter(|m: UploadModel| upload_model_readable(m))
}

impl UploadModel {
    /// The upload that a stored row holds: both ids must parse as UUIDs
    /// (else a `MapError` with the parser's message, the upload id checked
    /// first); they are kept in hyphenated form. The size is read back bit for
    /// bit; an unknown status reads as `Failed`.
    pub fn to_upload(self) -> (r: Result<Upload, DbError>)
        ensures
            match (uuid_parse_result(self.id@), uuid_parse_result(self.server_id@)) {
                (Err(e), _) => r matches Err(DbError::MapError { message }) && message@ == e,
                (Ok(_), Err(e)) => r matches Err(DbError::MapError { message }) && message@ == e,
                (Ok(_), Ok(_)) => r is Ok && upload_read_from(self, r->Ok_0),
            },
    {
        let id = match parse_uuid(self.id.as_str()) {
            Ok(id) => id,
            Err(message) => return Err(DbError::MapError { message }),
        };
        let server_id = match parse_uuid(self.server_id.as_str()) {
            Ok(id) => id,
            Err(message) => return Err(DbError::MapError { message }),
        };
        Ok(Upload {
            id,
            name: self.name,
            size: self.size as u64,
            mime_type: self.mime_type,
            path: self.path,
            url: self.url,
            created_at: self.created_at,
            status: Status::from(self.status),
            server_id,
        })
    }
}

/// The uploads that stored rows hold, in order; rows that cannot be read
/// back are skipped.
pub fn readable_uploads(models: &Vec<UploadModel>) -> (uploads: Vec<Upload>)
    ensures
        uploads@.len() == readable_upload_models(models@).len(),
        forall|i: int|
            0 <= i < uploads@.len() ==> upload_read_from(
                readable_upload_models(models@)[i],
                #[trigger] uploads@[i],
            ),
{
    let ghost pred = |m: UploadModel| upload_model_readable(m);
    let mut uploads: Vec<Upload> = Vec::new();
    let mut k: usize = 0;
    proof {
        reveal(Seq::filter);
        assert(models@.take(0) =~= Seq::<UploadModel>::empty());
    }
    while k < models.len()
        invariant
            k <= models.len(),
            pred == (|m: UploadModel| upload_model_readable(m)),
            uploads@.len() == models@.take(k as int).filter(pred).len(),
            forall|i: int|
                0 <= i < uploads@.len() ==> upload_read_from(
                    models@.take(k as int).filter(pred)[i],
                    #[trigger] uploads@[i],
                ),
        decreases models.len() - k,
    {
        proof {
            reveal(Seq::filter);
            assert(models@.take(k + 1).drop_last() =~= models@.take(k as int));
            assert(models@.take(k + 1).last() == models@[k as int]);
        }
        let ghost before = uploads@;
        match models[k].clone().to_upload() {
            Ok(upload) => {
                uploads.push(upload);
            },
            Err(_) => {},
        }
        proof {
            let prev = models@.take(k as int).filter(pred);
            let next = models@.take(k + 1).filter(pred);
            if pred(models@[k as int]) {
                assert(next =~= prev.push(models@[k as int]));
            } else {
                assert(next =~= prev);
            }
            assert forall|i: int| 0 <= i < uploads@.len() implies upload_read_from(
                next[i],
                #[trigger] uploads@[i],
            ) by {
                if i < before.len() {
                    assert(next[i] == prev[i]);
                }
            }
        }
        k = k + 1;
    }
    assert(models@.take(k as int) =~= models@);
    uploads
}

/// The last component of a path as `std::path::Path::file_name` gives it,
/// when there is one and it is valid Unicode.
pub uninterp spec fn path_file_name(path: Seq<char>) -> Option<Seq<char>>;

/// `Path::new(path).file_name()` as text. Trusted: the result is
/// `path_file_name` of the path.
#[verifier::external_body]
fn file_name_of(path: &str) -> (r: Option<String>)
    ensures
        match r {
            Some(n) => path_file_name(path@) == Some(n@),
            None => path_file_name(path@) is None,
        },
{
    match std::path::Path::new(path).file_name() {
        Some(name) => match name.to_str() {
            Some(text) => Some(text.to_string()),
            None => None,
        },
        None => None,
    }
}

impl UploadRequest {
    /// A request to upload the file at the given path to the given server,
    /// with a fresh random id: named after the path's last component, of the
    /// size the file system reports and the media type detected for it. The
    /// first missing piece, in that order, is the error: no file name, the
    /// file system's error, the detection error's message.
    pub fn from_file_path(
        path: String,
        server: Server,
        file_size: Result<u64, String>,
        mime_type: Result<String, MimeTypeDetectError>,
    ) -> (r: Result<UploadRequest, String>)
        ensures
            match path_file_name(path@) {
                None => r is Err && r->Err_0@ == "Failed to get file name"@,
                Some(name) => match file_size {
                    Err(e) => r is Err && r->Err_0@ == "Failed to get file metadata: "@ + e@,
                    Ok(size) => match mime_type {
                        Err(e) => r is Err && r->Err_0@ == detect_error_message(e),
                        Ok(m) => r is Ok && {
                            let q = r->Ok_0;
                            &&& initial_progress(q.upload.id@, size, q.progress)
                            &&& q.error is None
                            &&& new_upload(q.upload.id@, name, size, m@, path@, server, q.upload.created_at, q.upload)
                            &&& !q.finished && !q.canceled && !q.chunked && q.chunk_size == 0
                            &&& is_canonical_id(q.upload.id@)
                        },
                    },
                },
            },
    {
        let file_name = match file_name_of(path.as_str()) {
            Some(n) => n,
            None => return Err(String::from_str("Failed to get file name")),
        };
        let size = match file_size {
            Ok(size) => size,
            Err(e) => return Err(String::from_str("Failed to get file metadata: ").concat(e.as_str())),
        };
        let mime = match mime_type {
            Ok(m) => m,
            Err(e) => return Err(e.to_string()),
        };
        Ok(UploadRequest::new(new_random_id(), file_name, size, mime, path, server))
    }
}

} // verus!
