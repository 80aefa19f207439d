//! Remote file sessions: configuration, listings, directory creation and
//! removal plans, and transfer progress.

pub mod types;
pub mod transfer;
pub mod listing;
pub mod mkdir;
pub mod session;
pub mod delete;
pub mod manager;

pub use types::{
    AuthMethod, CreateSftpResponse, DownloadProgressPayload, FileInfo, SftpConfig, SftpError,
    UploadProgressPayload,
};
pub use transfer::{ProgressModel, ProgressReport, TransferProgress};
pub use listing::{RemoteEntry, RemoteStat};
pub use mkdir::{MkdirAction, MkdirPlan};
pub use delete::{DeleteAction, DeletePlan};
pub use session::SftpSession;
pub use manager::{SftpManager, SftpOperation};
