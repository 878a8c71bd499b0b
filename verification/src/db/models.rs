//! The input records of the storage side and the status of a download job.

use vstd::prelude::*;
use vstd::std_specs::convert::FromSpecImpl;

verus! {

/// Where a download job stands.
///
/// Stored records keep the status as text. The text of a status is its name
/// in lower case; text that names no status reads as `Pending`.
#[derive(Debug, Clone, PartialEq, Eq, Structural)]
pub enum DownloadStatus {
    Pending,
    Downloading,
    Processing,
    Completed,
    Failed,
}

impl DownloadStatus {
    /// The stored text of a status.
    pub open spec fn text(self) -> Seq<char> {
        match self {
            DownloadStatus::Pending => "pending"@,
            DownloadStatus::Downloading => "downloading"@,
            DownloadStatus::Processing => "processing"@,
            DownloadStatus::Completed => "completed"@,
            DownloadStatus::Failed => "failed"@,
        }
    }

    /// The status that a stored text stands for.
    pub open spec fn parse(text: Seq<char>) -> DownloadStatus {
        if text == "downloading"@ {
            DownloadStatus::Downloading
        } else if text == "processing"@ {
            DownloadStatus::Processing
        } else if text == "completed"@ {
            DownloadStatus::Completed
        } else if text == "failed"@ {
            DownloadStatus::Failed
        } else {
            DownloadStatus::Pending
        }
    }

    /// The stored text of a status.
    pub fn as_str(&self) -> (text: &'static str)
        ensures
            text@ == self.text(),
    {
        match self {
            DownloadStatus::Pending => "pending",
            DownloadStatus::Downloading => "downloading",
            DownloadStatus::Processing => "processing",
            DownloadStatus::Completed => "completed",
            DownloadStatus::Failed => "failed",
        }
    }

    /// Reads a stored text.
    pub fn from_text(text: &str) -> (status: DownloadStatus)
        ensures
            status == DownloadStatus::parse(text@),
    {
        let stored = text.to_owned();
        if stored == "downloading".to_owned() {
            DownloadStatus::Downloading
        } else if stored == "processing".to_owned() {
            DownloadStatus::Processing
        } else if stored == "completed".to_owned() {
            DownloadStatus::Completed
        } else if stored == "failed".to_owned() {
            DownloadStatus::Failed
        } else {
            DownloadStatus::Pending
        }
    }

    /// Writing a status and reading it back gives the status again.
    pub proof fn lemma_text_round_trip(status: DownloadStatus)
        ensures
            DownloadStatus::parse(status.text()) == status,
    {
        reveal_strlit("pending");
        reveal_strlit("downloading");
        reveal_strlit("processing");
        reveal_strlit("completed");
        reveal_strlit("failed");
        match status {
            DownloadStatus::Pending => {
                assert("pending"@.len() == 7);
                assert("pending"@[0] == 'p');
            },
            DownloadStatus::Downloading => {},
            DownloadStatus::Processing => {
                assert("processing"@.len() == 10);
                assert("downloading"@.len() == 11);
            },
            DownloadStatus::Completed => {
                assert("completed"@.len() == 9);
                assert("downloading"@.len() == 11);
                assert("processing"@.len() == 10);
            },
            DownloadStatus::Failed => {
                assert("failed"@.len() == 6);
                assert("downloading"@.len() == 11);
                assert("processing"@.len() == 10);
                assert("completed"@.len() == 9);
            },
        }
    }
}

impl From<String> for DownloadStatus {
    fn from(s: String) -> (status: DownloadStatus) {
        DownloadStatus::from_text(s.as_str())
    }
}

impl FromSpecImpl<String> for DownloadStatus {
    open spec fn obeys_from_spec() -> bool {
        true
    }

    open spec fn from_spec(s: String) -> DownloadStatus {
        DownloadStatus::parse(s@)
    }
}

impl From<DownloadStatus> for String {
    fn from(status: DownloadStatus) -> (text: String)
        ensures
            text@ == status.text(),
    {
        status.as_str().to_owned()
    }
}

impl FromSpecImpl<DownloadStatus> for String {
    open spec fn obeys_from_spec() -> bool {
        false
    }

    open spec fn from_spec(status: DownloadStatus) -> String {
        arbitrary()
    }
}

/// Input for creating a new user.
#[derive(Debug, Clone)]
pub struct CreateUser {
    pub email: String,
    pub password_hash: String,
}

/// Input for creating a new playlist.
#[derive(Debug, Clone)]
pub struct CreatePlaylist {
    pub user_id: i64,
    pub name: String,
    pub description: Option<String>,
}

} // verus!
