//! Lifecycle status of an upload, with its wire name.

use vstd::prelude::*;

verus! {

/// Where an upload stands in its lifecycle.
#[derive(Debug, Clone, Copy, PartialEq, Eq, Structural)]
pub enum Status {
    Pending,
    InProgress,
    Completed,
    Failed,
    Aborted,
}

/// The wire name of a status.
pub open spec fn status_name(s: Status) -> Seq<char> {
    match s {
        Status::Pending => "pending"@,
        Status::InProgress => "inProgress"@,
        Status::Completed => "completed"@,
        Status::Failed => "failed"@,
        Status::Aborted => "aborted"@,
    }
}

/// The status that a wire name stands for; unknown names mean `Failed`.
pub open spec fn status_from_name(name: Seq<char>) -> Status {
    if name == "pending"@ {
        Status::Pending
    } else if name == "inProgress"@ {
        Status::InProgress
    } else if name == "completed"@ {
        Status::Completed
    } else if name == "failed"@ {
        Status::Failed
    } else if name == "aborted"@ {
        Status::Aborted
    } else {
        Status::Failed
    }
}

impl Status {
    /// The wire name of this status.
    pub fn to_string(&self) -> (r: String)
        ensures
            r@ == status_name(*self),
    {
        match self {
            Status::Pending => String::from_str("pending"),
            Status::InProgress => String::from_str("inProgress"),
            Status::Completed => String::from_str("completed"),
            Status::Failed => String::from_str("failed"),
            Status::Aborted => String::from_str("aborted"),
        }
    }

    /// Reads a status from its wire name; any other text reads as `Failed`.
    pub fn from(s: String) -> (r: Status)
        ensures
            r == status_from_name(s@),
    {
        if s == String::from_str("pending") {
            Status::Pending
        } else if s == String::from_str("inProgress") {
            Status::InProgress
        } else if s == String::from_str("completed") {
            Status::Completed
        } else if s == String::from_str("failed") {
            Status::Failed
        } else if s == String::from_str("aborted") {
            Status::Aborted
        } else {
            Status::Failed
        }
    }
}

/// Reading back the wire name of a status gives the same status.
pub proof fn lemma_status_name_round_trip(s: Status)
    ensures
        status_from_name(status_name(s)) == s,
{
    reveal_strlit("pending");
    reveal_strlit("inProgress");
    reveal_strlit("completed");
    reveal_strlit("failed");
    reveal_strlit("aborted");
    match s {
        Status::Aborted => {
            assert("aborted"@[0] != "pending"@[0]);
            assert("aborted"@ != "pending"@);
            assert("aborted"@ != "inProgress"@);
            assert("aborted"@ != "completed"@);
            assert("aborted"@ != "failed"@);
        },
        _ => {
            assert("pending"@.len() != "inProgress"@.len());
            assert("pending"@.len() != "completed"@.len());
            assert("inProgress"@.len() != "completed"@.len());
        },
    }
}

/// Where an upload of the local upload history stands, under the same wire
/// names as `Status`.
#[derive(Debug, Clone, Copy, PartialEq, Eq, Structural)]
pub enum UploadStatus {
    Pending,
    InProgress,
    Completed,
    Failed,
    Aborted,
}

/// The `Status` with the same wire name.
pub open spec fn as_status(s: UploadStatus) -> Status {
    match s {
        UploadStatus::Pending => Status::Pending,
        UploadStatus::InProgress => Status::InProgress,
        UploadStatus::Completed => Status::Completed,
        UploadStatus::Failed => Status::Failed,
        UploadStatus::Aborted => Status::Aborted,
    }
}

impl UploadStatus {
    /// The wire name of this status.
    pub fn to_string(&self) -> (r: String)
        ensures
            r@ == status_name(as_status(*self)),
    {
        match self {
            UploadStatus::Pending => Status::Pending.to_string(),
            UploadStatus::InProgress => Status::InProgress.to_string(),
            UploadStatus::Completed => Status::Completed.to_string(),
            UploadStatus::Failed => Status::Failed.to_string(),
            UploadStatus::Aborted => Status::Aborted.to_string(),
        }
    }

    /// Reads a status from its wire name; any other text reads as `Failed`.
    pub fn from(s: String) -> (r: UploadStatus)
        ensures
            as_status(r) == status_from_name(s@),
    {
        match Status::from(s) {
            Status::Pending => UploadStatus::Pending,
            Status::InProgress => UploadStatus::InProgress,
            Status::Completed => UploadStatus::Completed,
            Status::Failed => UploadStatus::Failed,
            Status::Aborted => UploadStatus::Aborted,
        }
    }
}

} // verus!
