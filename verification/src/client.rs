//! The vocabulary of the server API: error responses, the errors of each
//! call with their codes and messages, and the health and file statuses.

use vstd::prelude::*;
use vstd::std_specs::convert::FromSpecImpl;

verus! {

/// An error as the server reports it.
#[derive(Debug)]
pub struct ErrorResponse {
    pub code: String,
    pub message: String,
}

/// An error of a call to the server that carries a stable code.
pub trait ClientError {
    /// The code of this error.
    spec fn error_code(&self) -> Seq<char>;

    /// The code of this error, as text.
    fn code(&self) -> (r: String)
        ensures
            r@ == self.error_code(),
    ;
}

pub const FILE_UPLOAD_ERROR_EXISTS: &'static str = "exists";
pub const FILE_UPLOAD_ERROR_NOT_EXISTS: &'static str = "not_exists";
pub const FILE_UPLOAD_ERROR_MAX_FILE_SIZE_EXCEEDED: &'static str = "max_file_size_exceeded";
pub const FILE_UPLOAD_ERROR_NOT_COMPLETED: &'static str = "not_completed";
pub const FILE_UPLOAD_ERROR_UNKNOWN_MIME_TYPE: &'static str = "unknown_mime_type";
pub const FILE_UPLOAD_ERROR_CANCELED: &'static str = "canceled";
pub const FILE_UPLOAD_ERROR_INTERNAL_SERVER_ERROR: &'static str = "internal_server_error";
pub const FILE_UPLOAD_ERROR_CLIENT_ERROR: &'static str = "client_error";

pub const FILE_DELETE_ERROR_NOT_EXISTS: &'static str = "not_exists";
pub const FILE_DELETE_ERROR_INTERNAL_SERVER_ERROR: &'static str = "internal_server_error";
pub const FILE_DELETE_ERROR_CLIENT_ERROR: &'static str = "client_error";

pub const FILE_INFO_ERROR_NOT_EXISTS: &'static str = "not_exists";
pub const FILE_INFO_ERROR_INTERNAL_SERVER_ERROR: &'static str = "internal_server_error";
pub const FILE_INFO_ERROR_CLIENT_ERROR: &'static str = "client_error";

pub const HEALTH_CHECK_ERROR_HEALTH_CHECK_ERROR: &'static str = "health_check_error";

/// Why creating or sending an upload failed.
#[derive(Debug, PartialEq)]
pub enum FileUploadError {
    Exists { message: String },
    NotExists { message: String },
    MaxFileSizeExceeded { message: String },
    NotCompleted { message: String },
    UnknownMimeType,
    Canceled,
    InternalServerError { message: String },
    ClientError { message: String },
}

/// The error that a server response with the given code stands for.
pub open spec fn upload_error_from_response(value: ErrorResponse) -> FileUploadError {
    if value.code@ == "Exists"@ {
        FileUploadError::Exists { message: value.message }
    } else if value.code@ == "NotExists"@ {
        FileUploadError::NotExists { message: value.message }
    } else if value.code@ == "MaxFileSizeExceeded"@ {
        FileUploadError::MaxFileSizeExceeded { message: value.message }
    } else {
        FileUploadError::InternalServerError { message: value.message }
    }
}

impl From<ErrorResponse> for FileUploadError {
    fn from(value: ErrorResponse) -> (r: Self) {
        if value.code == String::from_str("Exists") {
            FileUploadError::Exists { message: value.message }
        } else if value.code == String::from_str("NotExists") {
            FileUploadError::NotExists { message: value.message }
        } else if value.code == String::from_str("MaxFileSizeExceeded") {
            FileUploadError::MaxFileSizeExceeded { message: value.message }
        } else {
            FileUploadError::InternalServerError { message: value.message }
        }
    }
}

impl FromSpecImpl<ErrorResponse> for FileUploadError {
    open spec fn obeys_from_spec() -> bool {
        true
    }

    open spec fn from_spec(value: ErrorResponse) -> Self {
        upload_error_from_response(value)
    }
}

/// The code of an upload error.
pub open spec fn upload_error_code(e: FileUploadError) -> Seq<char> {
    match e {
        FileUploadError::Exists { .. } => FILE_UPLOAD_ERROR_EXISTS@,
        FileUploadError::NotExists { .. } => FILE_UPLOAD_ERROR_NOT_EXISTS@,
        FileUploadError::MaxFileSizeExceeded { .. } => FILE_UPLOAD_ERROR_MAX_FILE_SIZE_EXCEEDED@,
        FileUploadError::NotCompleted { .. } => FILE_UPLOAD_ERROR_NOT_COMPLETED@,
        FileUploadError::UnknownMimeType => FILE_UPLOAD_ERROR_UNKNOWN_MIME_TYPE@,
        FileUploadError::Canceled => FILE_UPLOAD_ERROR_CANCELED@,
        FileUploadError::InternalServerError { .. } => FILE_UPLOAD_ERROR_INTERNAL_SERVER_ERROR@,
        FileUploadError::ClientError { .. } => FILE_UPLOAD_ERROR_CLIENT_ERROR@,
    }
}

/// The message of an upload error, as shown to the user.
pub open spec fn upload_error_message(e: FileUploadError) -> Seq<char> {
    match e {
        FileUploadError::Exists { message } => message@,
        FileUploadError::NotExists { message } => message@,
        FileUploadError::MaxFileSizeExceeded { message } => message@,
        FileUploadError::NotCompleted { message } => message@,
        FileUploadError::UnknownMimeType => "unknown mime type for the provided file to upload"@,
        FileUploadError::Canceled => "file upload has been canceled"@,
        FileUploadError::InternalServerError { message } => message@,
        FileUploadError::ClientError { message } => message@,
    }
}

impl ClientError for FileUploadError {
    open spec fn error_code(&self) -> Seq<char> {
        upload_error_code(*self)
    }

    fn code(&self) -> (r: String) {
        match self {
            FileUploadError::Exists { .. } => String::from_str(FILE_UPLOAD_ERROR_EXISTS),
            FileUploadError::NotExists { .. } => String::from_str(FILE_UPLOAD_ERROR_NOT_EXISTS),
            FileUploadError::MaxFileSizeExceeded { .. } => String::from_str(
                FILE_UPLOAD_ERROR_MAX_FILE_SIZE_EXCEEDED,
            ),
            FileUploadError::NotCompleted { .. } => String::from_str(FILE_UPLOAD_ERROR_NOT_COMPLETED),
            FileUploadError::UnknownMimeType => String::from_str(FILE_UPLOAD_ERROR_UNKNOWN_MIME_TYPE),
            FileUploadError::Canceled => String::from_str(FILE_UPLOAD_ERROR_CANCELED),
            FileUploadError::InternalServerError { .. } => String::from_str(
                FILE_UPLOAD_ERROR_INTERNAL_SERVER_ERROR,
            ),
            FileUploadError::ClientError { .. } => String::from_str(FILE_UPLOAD_ERROR_CLIENT_ERROR),
        }
    }
}

impl FileUploadError {
    /// The message shown to the user.
    pub fn to_string(&self) -> (r: String)
        ensures
            r@ == upload_error_message(*self),
    {
        match self {
            FileUploadError::Exists { message } => message.clone(),
            FileUploadError::NotExists { message } => message.clone(),
            FileUploadError::MaxFileSizeExceeded { message } => message.clone(),
            FileUploadError::NotCompleted { message } => message.clone(),
            FileUploadError::UnknownMimeType => String::from_str(
                "unknown mime type for the provided file to upload",
            ),
            FileUploadError::Canceled => String::from_str("file upload has been canceled"),
            FileUploadError::InternalServerError { message } => message.clone(),
            FileUploadError::ClientError { message } => message.clone(),
        }
    }

    /// Whether this error means that the user canceled the upload.
    pub fn is_canceled(&self) -> (r: bool)
        ensures
            r == (*self is Canceled),
    {
        match self {
            FileUploadError::Canceled => true,
            _ => false,
        }
    }
}

/// Why deleting an upload on the server failed.
#[derive(Debug, PartialEq)]
pub enum FileDeleteError {
    NotExists { message: String },
    InternalServerError { message: String },
    ClientError { message: String },
}

/// The delete error that a server response with the given code stands for.
pub open spec fn delete_error_from_response(value: ErrorResponse) -> FileDeleteError {
    if value.code@ == "NotExists"@ {
        FileDeleteError::NotExists { message: value.message }
    } else {
        FileDeleteError::InternalServerError { message: value.message }
    }
}

impl From<ErrorResponse> for FileDeleteError {
    fn from(value: ErrorResponse) -> (r: Self) {
        if value.code == String::from_str("NotExists") {
            FileDeleteError::NotExists { message: value.message }
        } else {
            FileDeleteError::InternalServerError { message: value.message }
        }
    }
}

impl FromSpecImpl<ErrorResponse> for FileDeleteError {
    open spec fn obeys_from_spec() -> bool {
        true
    }

    open spec fn from_spec(value: ErrorResponse) -> Self {
        delete_error_from_response(value)
    }
}

impl ClientError for FileDeleteError {
    open spec fn error_code(&self) -> Seq<char> {
        match *self {
            FileDeleteError::NotExists { .. } => FILE_DELETE_ERROR_NOT_EXISTS@,
            FileDeleteError::InternalServerError { .. } => FILE_DELETE_ERROR_INTERNAL_SERVER_ERROR@,
            FileDeleteError::ClientError { .. } => FILE_DELETE_ERROR_CLIENT_ERROR@,
        }
    }

    fn code(&self) -> (r: String) {
        match self {
            FileDeleteError::NotExists { .. } => String::from_str(FILE_DELETE_ERROR_NOT_EXISTS),
            FileDeleteError::InternalServerError { .. } => String::from_str(
                FILE_DELETE_ERROR_INTERNAL_SERVER_ERROR,
            ),
            FileDeleteError::ClientError { .. } => String::from_str(FILE_DELETE_ERROR_CLIENT_ERROR),
        }
    }
}

impl FileDeleteError {
    /// The message shown to the user: the message that the error carries.
    pub fn to_string(&self) -> (r: String)
        ensures
            r@ == match *self {
                FileDeleteError::NotExists { message } => message@,
                FileDeleteError::InternalServerError { message } => message@,
                FileDeleteError::ClientError { message } => message@,
            },
    {
        match self {
            FileDeleteError::NotExists { message } => message.clone(),
            FileDeleteError::InternalServerError { message } => message.clone(),
            FileDeleteError::ClientError { message } => message.clone(),
        }
    }
}

/// Why asking the server about an upload failed.
#[derive(Debug, PartialEq)]
pub enum FileInfoError {
    NotExists { message: String },
    InternalServerError { message: String },
    ClientError { message: String },
}

/// The info error that a server response with the given code stands for.
pub open spec fn info_error_from_response(value: ErrorResponse) -> FileInfoError {
    if value.code@ == "NotExists"@ {
        FileInfoError::NotExists { message: value.message }
    } else {
        FileInfoError::InternalServerError { message: value.message }
    }
}

impl From<ErrorResponse> for FileInfoError {
    fn from(value: ErrorResponse) -> (r: Self) {
        if value.code == String::from_str("NotExists") {
            FileInfoError::NotExists { message: value.message }
        } else {
            FileInfoError::InternalServerError { message: value.message }
        }
    }
}

impl FromSpecImpl<ErrorResponse> for FileInfoError {
    open spec fn obeys_from_spec() -> bool {
        true
    }

    open spec fn from_spec(value: ErrorResponse) -> Self {
        info_error_from_response(value)
    }
}

/// The code of an info error.
pub open spec fn info_error_code(e: FileInfoError) -> Seq<char> {
    match e {
        FileInfoError::NotExists { .. } => FILE_INFO_ERROR_NOT_EXISTS@,
        FileInfoError::InternalServerError { .. } => FILE_INFO_ERROR_INTERNAL_SERVER_ERROR@,
        FileInfoError::ClientError { .. } => FILE_INFO_ERROR_CLIENT_ERROR@,
    }
}

/// The message of an info error: the message that it carries.
pub open spec fn info_error_message(e: FileInfoError) -> Seq<char> {
    match e {
        FileInfoError::NotExists { message } => message@,
        FileInfoError::InternalServerError { message } => message@,
        FileInfoError::ClientError { message } => message@,
    }
}

impl ClientError for FileInfoError {
    open spec fn error_code(&self) -> Seq<char> {
        info_error_code(*self)
    }

    fn code(&self) -> (r: String) {
        match self {
            FileInfoError::NotExists { .. } => String::from_str(FILE_INFO_ERROR_NOT_EXISTS),
            FileInfoError::InternalServerError { .. } => String::from_str(
                FILE_INFO_ERROR_INTERNAL_SERVER_ERROR,
            ),
            FileInfoError::ClientError { .. } => String::from_str(FILE_INFO_ERROR_CLIENT_ERROR),
        }
    }
}

impl FileInfoError {
    /// The message shown to the user: the message that the error carries.
    pub fn to_string(&self) -> (r: String)
        ensures
            r@ == info_error_message(*self),
    {
        match self {
            FileInfoError::NotExists { message } => message.clone(),
            FileInfoError::InternalServerError { message } => message.clone(),
            FileInfoError::ClientError { message } => message.clone(),
        }
    }

    /// Whether the server does not know the upload (as opposed to any other
    /// failure).
    pub fn is_not_exists(&self) -> (r: bool)
        ensures
            r == (info_error_code(*self) == FILE_INFO_ERROR_NOT_EXISTS@),
    {
        proof {
            reveal_strlit("not_exists");
            reveal_strlit("internal_server_error");
            reveal_strlit("client_error");
            assert(FILE_INFO_ERROR_NOT_EXISTS@ == "not_exists"@);
            assert(FILE_INFO_ERROR_CLIENT_ERROR@.len() != FILE_INFO_ERROR_NOT_EXISTS@.len());
        }
        match self {
            FileInfoError::NotExists { .. } => true,
            _ => false,
        }
    }
}

/// Why the health of a server could not be checked.
#[derive(Debug, PartialEq)]
pub struct HealthCheckError {
    pub message: String,
}

impl ClientError for HealthCheckError {
    open spec fn error_code(&self) -> Seq<char> {
        HEALTH_CHECK_ERROR_HEALTH_CHECK_ERROR@
    }

    fn code(&self) -> (r: String) {
        String::from_str(HEALTH_CHECK_ERROR_HEALTH_CHECK_ERROR)
    }
}

impl HealthCheckError {
    /// The message shown to the user: the message that the error carries.
    pub fn to_string(&self) -> (r: String)
        ensures
            r@ == self.message@,
    {
        self.message.clone()
    }
}

/// Whether an upload's content has reached the server.
#[derive(Debug, Clone, Copy, PartialEq, Eq, Structural)]
pub enum FileStatus {
    WaitingForUpload,
    Uploaded,
}

/// What `serde_json` makes of a text when asked for a string field of the
/// top-level value: the parse error's message, or the field's text when the
/// value has that field and it is a string (`None` otherwise).
pub uninterp spec fn json_string_field_result(content: Seq<char>, field: Seq<char>) -> Result<Option<Seq<char>>, Seq<char>>;

/// Views an optional text as an optional character sequence.
pub open spec fn opt_view(s: Option<String>) -> Option<Seq<char>> {
    match s {
        Some(t) => Some(t@),
        None => None,
    }
}

/// `serde_json::from_str::<serde_json::Value>(content)`, then
/// `value[field].as_str()`. Trusted: the result is
/// `json_string_field_result` of the text and the field name.
#[verifier::external_body]
fn json_string_field(content: &str, field: &str) -> (r: Result<Option<String>, String>)
    ensures
        match r {
            Ok(v) => json_string_field_result(content@, field@) == Ok::<Option<Seq<char>>, Seq<char>>(
                opt_view(v),
            ),
            Err(e) => json_string_field_result(content@, field@) == Err::<Option<Seq<char>>, Seq<char>>(
                e@,
            ),
        },
{
    match serde_json::from_str::<serde_json::Value>(content) {
        Ok(value) => match value[field].as_str() {
            Some(text) => Ok(Some(text.to_string())),
            None => Ok(None),
        },
        Err(err) => Err(err.to_string()),
    }
}

/// Whether a server is up.
#[derive(Debug, Clone, Copy, PartialEq, Eq, Structural)]
pub enum HealthCheckStatus {
    Up,
    Down,
}

/// What a health report's `status` text stands for: `up`, `down` (also when
/// the report has no such text), or the error for any other text.
pub open spec fn health_from_status(status: Option<Seq<char>>) -> Result<HealthCheckStatus, Seq<char>> {
    let s = match status {
        Some(t) => t,
        None => "down"@,
    };
    if s == "up"@ {
        Ok(HealthCheckStatus::Up)
    } else if s == "down"@ {
        Ok(HealthCheckStatus::Down)
    } else {
        Err("Invalid health check status: "@ + s)
    }
}

impl HealthCheckStatus {
    /// Reads a server's JSON health report: its `status` text decides, as
    /// `health_from_status` says; a report that is not JSON is an error with
    /// the parser's message.
    pub fn from_string(content: String) -> (r: Result<HealthCheckStatus, String>)
        ensures
            match json_string_field_result(content@, "status"@) {
                Err(e) => r is Err && r->Err_0@ == e,
                Ok(status) => match health_from_status(status) {
                    Ok(h) => r == Ok::<HealthCheckStatus, String>(h),
                    Err(e) => r is Err && r->Err_0@ == e,
                },
            },
    {
        let status = match json_string_field(content.as_str(), "status") {
            Err(e) => return Err(e),
            Ok(Some(s)) => s,
            Ok(None) => String::from_str("down"),
        };
        if status == String::from_str("up") {
            Ok(HealthCheckStatus::Up)
        } else if status == String::from_str("down") {
            Ok(HealthCheckStatus::Down)
        } else {
            Err(String::from_str("Invalid health check status: ").concat(status.as_str()))
        }
    }
}

} // verus!
