//! Plain data of the local file browser.

use vstd::prelude::*;
use crate::sftp::listing::FileInfoView;

verus! {

/// One local file or directory. `modified` counts milliseconds since the
/// epoch.
#[derive(Debug, Clone, PartialEq, Eq)]
pub struct FileInfo {
    pub name: String,
    pub path: String,
    pub is_directory: bool,
    pub size: u64,
    pub modified: u64,
    pub permissions: Option<String>,
}

impl View for FileInfo {
    type V = FileInfoView;

    open spec fn view(&self) -> FileInfoView {
        FileInfoView {
            name: self.name@,
            path: self.path@,
            is_directory: self.is_directory,
            size: self.size,
            modified: self.modified,
            permissions: match self.permissions {
                Some(p) => Some(p@),
                None => None,
            },
        }
    }
}

/// The listing of one directory.
#[derive(Debug, Clone, PartialEq, Eq)]
pub struct FileListResponse {
    pub path: String,
    pub files: Vec<FileInfo>,
}

/// What can go wrong in the local file browser. Each variant carries the
/// detail that follows the fixed text of its message.
#[derive(Debug, Clone, PartialEq, Eq)]
pub enum FsError {
    PathNotFound(String),
    PermissionDenied(String),
    ReadDirFailed(String),
    CreateDirFailed(String),
    DeleteFileFailed(String),
    DeleteDirFailed(String),
    RenameFailed(String),
    IoError(String),
}

impl FsError {
    /// The fixed text that opens the message of this kind of error.
    pub open spec fn prefix(self) -> Seq<char> {
        match self {
            FsError::PathNotFound(_) => "Path not found: "@,
            FsError::PermissionDenied(_) => "Permission denied: "@,
            FsError::ReadDirFailed(_) => "Failed to read directory: "@,
            FsError::CreateDirFailed(_) => "Failed to create directory: "@,
            FsError::DeleteFileFailed(_) => "Failed to delete file: "@,
            FsError::DeleteDirFailed(_) => "Failed to delete directory: "@,
            FsError::RenameFailed(_) => "Failed to rename item: "@,
            FsError::IoError(_) => "IO error: "@,
        }
    }

    /// The detail that the error carries.
    pub open spec fn detail(self) -> Seq<char> {
        match self {
            FsError::PathNotFound(d) => d@,
            FsError::PermissionDenied(d) => d@,
            FsError::ReadDirFailed(d) => d@,
            FsError::CreateDirFailed(d) => d@,
            FsError::DeleteFileFailed(d) => d@,
            FsError::DeleteDirFailed(d) => d@,
            FsError::RenameFailed(d) => d@,
            FsError::IoError(d) => d@,
        }
    }

    /// The message shown to a user: the fixed text, then the detail.
    pub open spec fn message_text(self) -> Seq<char> {
        self.prefix() + self.detail()
    }

    /// The message shown to a user.
    pub fn message(&self) -> (out: String)
        ensures
            out@ == self.message_text(),
    {
        match self {
            FsError::PathNotFound(d) => String::from_str("Path not found: ").concat(d.as_str()),
            FsError::PermissionDenied(d) => String::from_str("Permission denied: ").concat(d.as_str()),
            FsError::ReadDirFailed(d) => String::from_str("Failed to read directory: ").concat(d.as_str()),
            FsError::CreateDirFailed(d) => String::from_str("Failed to create directory: ").concat(d.as_str()),
            FsError::DeleteFileFailed(d) => String::from_str("Failed to delete file: ").concat(d.as_str()),
            FsError::DeleteDirFailed(d) => String::from_str("Failed to delete directory: ").concat(d.as_str()),
            FsError::RenameFailed(d) => String::from_str("Failed to rename item: ").concat(d.as_str()),
            FsError::IoError(d) => String::from_str("IO error: ").concat(d.as_str()),
        }
    }
}

} // verus!
