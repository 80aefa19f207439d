//! Plain data of the local file browser, and the order of its listings.

pub mod types;
pub mod operations;

pub use types::{FileInfo, FileListResponse, FsError};
