//! The ways in which browsing a bundle fails.
use vstd::prelude::*;
use vstd::string::StringExecFns;

verus! {

/// The index of a bundle could not be had: its source cannot be read, or its
/// listing cannot be parsed.
#[derive(Clone, Copy, Debug, PartialEq, Eq, Structural)]
pub enum IndexError {
    /// The source of the bundle cannot be read as an archive.
    Unreadable,
    /// The archive lists an entry under a name that cannot be decoded.
    Unparsable,
}

/// An entry of a bundle could not be read.
#[derive(Clone, Copy, Debug, PartialEq, Eq, Structural)]
pub enum FileAccessError {
    /// The bundle holds no entry under the path that was asked for.
    NotFound,
    /// The entry is there and its bytes cannot be read.
    Unreadable,
}

/// Why a dashboard could not be made, or why one of its operations gave up.
#[derive(Debug, PartialEq, Eq)]
pub enum DashboardError {
    /// The index of the bundle could not be had.
    Index(IndexError),
    /// The index of the bundle has no entries.
    EmptyBundle,
    /// The entry at `path` could not be opened or read.
    FileAccess { path: String, cause: FileAccessError },
}

impl DashboardError {
    /// Whether this is the failure to read the entry named `path`.
    pub open spec fn is_access_failure(self, path: Seq<char>) -> bool {
        self matches DashboardError::FileAccess { path: failed, .. } && failed@ == path
    }

    /// The text of the message for this error.
    pub open spec fn message_text(self) -> Seq<char> {
        match self {
            DashboardError::Index(IndexError::Unreadable) => "Failed to read support bundle"@,
            DashboardError::Index(IndexError::Unparsable) => "Failed to list support bundle"@,
            DashboardError::EmptyBundle => "No files found in support bundle"@,
            DashboardError::FileAccess { path, .. } => "Failed to access "@ + path@,
        }
    }

    /// A message for the operator.
    pub fn message(&self) -> (message: String)
        ensures
            message@ == self.message_text(),
    {
        match self {
            DashboardError::Index(IndexError::Unreadable) => String::from_str(
                "Failed to read support bundle",
            ),
            DashboardError::Index(IndexError::Unparsable) => String::from_str(
                "Failed to list support bundle",
            ),
            DashboardError::EmptyBundle => String::from_str("No files found in support bundle"),
            DashboardError::FileAccess { path, .. } => {
                let mut message = String::from_str("Failed to access ");
                message.append(path.as_str());
                message
            },
        }
    }
}

} // verus!
