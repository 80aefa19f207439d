//! Plain data of the SFTP layer.

use vstd::prelude::*;

verus! {

/// How a user proves their identity to the server.
#[derive(Debug, Clone, PartialEq, Eq)]
pub enum AuthMethod {
    Password { password: String },
    PrivateKey { path: String, passphrase: Option<String> },
}

/// Where and as whom to connect.
#[derive(Debug, Clone, PartialEq, Eq)]
pub struct SftpConfig {
    pub host: String,
    pub port: u16,
    pub username: String,
    pub auth_method: Option<AuthMethod>,
}

impl SftpConfig {
    /// A configuration names a port above zero and a user.
    pub open spec fn valid(self) -> bool {
        self.port >= 1 && self.username@.len() > 0
    }

    /// Tells whether the configuration names a port above zero and a user.
    pub fn is_valid(&self) -> (b: bool)
        ensures
            b == self.valid(),
    {
        self.port >= 1 && !self.username.as_str().is_empty()
    }
}

/// One remote file or directory. `modified` counts seconds since the epoch.
#[derive(Debug, Clone, PartialEq, Eq)]
pub struct FileInfo {
    pub name: String,
    pub path: String,
    pub is_directory: bool,
    pub size: u64,
    pub modified: u64,
    pub permissions: Option<String>,
}

impl FileInfo {
    /// The modification time in milliseconds, where it fits in 64 bits.
    pub fn modified_millis(&self) -> (ms: Option<u64>)
        ensures
            ms == (if self.modified as int * 1000 <= u64::MAX {
                Some((self.modified as int * 1000) as u64)
            } else {
                None
            }),
    {
        if self.modified <= u64::MAX / 1000 {
            Some(self.modified * 1000)
        } else {
            None
        }
    }
}

/// What the caller learns of a session that was opened.
#[derive(Debug, Clone, PartialEq, Eq)]
pub struct CreateSftpResponse {
    pub session_id: String,
    pub host: String,
    pub username: String,
}

/// What can go wrong in the SFTP layer. Each variant carries the detail
/// that follows the fixed text of its message.
#[derive(Debug, Clone, PartialEq, Eq)]
pub enum SftpError {
    SessionNotFound(String),
    ConnectionFailed(String),
    AuthenticationFailed(String),
    PathNotFound(String),
    PermissionDenied(String),
    ReadDirFailed(String),
    CreateDirFailed(String),
    DeleteFileFailed(String),
    DeleteDirFailed(String),
    RenameFailed(String),
    UploadFailed(String),
    DownloadFailed(String),
    IoError(String),
    SshError(String),
}

impl SftpError {
    /// The fixed text that opens the message of this kind of error.
    pub open spec fn prefix(self) -> Seq<char> {
        match self {
            SftpError::SessionNotFound(_) => "Session not found: "@,
            SftpError::ConnectionFailed(_) => "Connection failed: "@,
            SftpError::AuthenticationFailed(_) => "Authentication failed: "@,
            SftpError::PathNotFound(_) => "Path not found: "@,
            SftpError::PermissionDenied(_) => "Permission denied: "@,
            SftpError::ReadDirFailed(_) => "Failed to read directory: "@,
            SftpError::CreateDirFailed(_) => "Failed to create directory: "@,
            SftpError::DeleteFileFailed(_) => "Failed to delete file: "@,
            SftpError::DeleteDirFailed(_) => "Failed to delete directory: "@,
            SftpError::RenameFailed(_) => "Failed to rename item: "@,
            SftpError::UploadFailed(_) => "Failed to upload file: "@,
            SftpError::DownloadFailed(_) => "Failed to download file: "@,
            SftpError::IoError(_) => "IO error: "@,
            SftpError::SshError(_) => "SSH error: "@,
        }
    }

    /// The detail that the error carries.
    pub open spec fn detail(self) -> Seq<char> {
        match self {
            SftpError::SessionNotFound(d) => d@,
            SftpError::ConnectionFailed(d) => d@,
            SftpError::AuthenticationFailed(d) => d@,
            SftpError::PathNotFound(d) => d@,
            SftpError::PermissionDenied(d) => d@,
            SftpError::ReadDirFailed(d) => d@,
            SftpError::CreateDirFailed(d) => d@,
            SftpError::DeleteFileFailed(d) => d@,
            SftpError::DeleteDirFailed(d) => d@,
            SftpError::RenameFailed(d) => d@,
            SftpError::UploadFailed(d) => d@,
            SftpError::DownloadFailed(d) => d@,
            SftpError::IoError(d) => d@,
            SftpError::SshError(d) => d@,
        }
    }

    /// The message shown to a user: the fixed text, then the detail.
    pub open spec fn message_text(self) -> Seq<char> {
        self.prefix() + self.detail()
    }

    /// The message shown to a user.
    pub fn message(&self) -> (out: String)
        ensures
            out@ == self.message_text(),
    {
        match self {
            SftpError::SessionNotFound(d) => String::from_str("Session not found: ").concat(d.as_str()),
            SftpError::ConnectionFailed(d) => String::from_str("Connection failed: ").concat(d.as_str()),
            SftpError::AuthenticationFailed(d) => String::from_str("Authentication failed: ").concat(d.as_str()),
            SftpError::PathNotFound(d) => String::from_str("Path not found: ").concat(d.as_str()),
            SftpError::PermissionDenied(d) => String::from_str("Permission denied: ").concat(d.as_str()),
            SftpError::ReadDirFailed(d) => String::from_str("Failed to read directory: ").concat(d.as_str()),
            SftpError::CreateDirFailed(d) => String::from_str("Failed to create directory: ").concat(d.as_str()),
            SftpError::DeleteFileFailed(d) => String::from_str("Failed to delete file: ").concat(d.as_str()),
            SftpError::DeleteDirFailed(d) => String::from_str("Failed to delete directory: ").concat(d.as_str()),
            SftpError::RenameFailed(d) => String::from_str("Failed to rename item: ").concat(d.as_str()),
            SftpError::UploadFailed(d) => String::from_str("Failed to upload file: ").concat(d.as_str()),
            SftpError::DownloadFailed(d) => String::from_str("Failed to download file: ").concat(d.as_str()),
            SftpError::IoError(d) => String::from_str("IO error: ").concat(d.as_str()),
            SftpError::SshError(d) => String::from_str("SSH error: ").concat(d.as_str()),
        }
    }
}

/// Progress of an upload, as sent to the user interface.
#[derive(Debug, Clone, PartialEq, Eq)]
pub struct UploadProgressPayload {
    pub transfer_id: String,
    pub bytes: u64,
    pub total_bytes: u64,
    pub percentage: u8,
}

/// Progress of a download, as sent to the user interface.
#[derive(Debug, Clone, PartialEq, Eq)]
pub struct DownloadProgressPayload {
    pub transfer_id: String,
    pub bytes: u64,
    pub total_bytes: u64,
    pub percentage: u8,
}

} // verus!
