//! What the local file browser makes of the attributes of a file, and the
//! order of a listing.

use vstd::prelude::*;
use crate::fs::types::{FileInfo, FsError};
use crate::sftp::listing::{is_stable_sort_of, sort_listing, views, FileInfoView};
use crate::sftp::types::FileInfo as RemoteInfo;
use crate::text::{octal, octal_string};

verus! {

/// The permission bits that a listing shows: read, write and execute for
/// owner, group and others.
pub const PERMISSION_MASK: u32 = 0o777;

/// What a listing shows for a local file with these attributes: a
/// directory has size zero, and of the mode only the permission bits
/// count, in octal.
pub open spec fn local_info(
    name: Seq<char>,
    path: Seq<char>,
    is_directory: bool,
    len: u64,
    modified: u64,
    mode: Option<u32>,
) -> FileInfoView {
    FileInfoView {
        name,
        path,
        is_directory,
        size: if is_directory {
            0
        } else {
            len
        },
        modified,
        permissions: match mode {
            Some(m) => Some(octal((m & PERMISSION_MASK) as nat)),
            None => None,
        },
    }
}

/// Describes a local file from its attributes.
pub fn get_file_info(
    name: String,
    path: String,
    is_directory: bool,
    len: u64,
    modified: u64,
    mode: Option<u32>,
) -> (info: FileInfo)
    ensures
        info@ == local_info(name@, path@, is_directory, len, modified, mode),
{
    let permissions = match mode {
        Some(m) => Some(octal_string(m & PERMISSION_MASK)),
        None => None,
    };
    FileInfo {
        name,
        path,
        is_directory,
        size: if is_directory {
            0
        } else {
            len
        },
        modified,
        permissions,
    }
}

/// `subject`, a colon and a space, then `cause`.
pub open spec fn described(subject: Seq<char>, cause: Seq<char>) -> Seq<char> {
    subject + ": "@ + cause
}

fn describe(subject: &str, cause: &str) -> (text: String)
    ensures
        text@ == described(subject@, cause@),
{
    String::from_str(subject).concat(": ").concat(cause)
}

/// The home directory of the user, where one is known and its path is
/// valid text.
pub fn get_user_home(home: Option<String>) -> (result: Result<String, FsError>)
    ensures
        match home {
            Some(path) => result == Ok::<String, FsError>(path),
            None => match result {
                Err(FsError::PathNotFound(d)) => d@ == "Home directory not found"@,
                _ => false,
            },
        },
{
    match home {
        Some(path) => Ok(path),
        None => Err(FsError::PathNotFound(String::from_str("Home directory not found"))),
    }
}

/// What creating a directory came to: a failure is an error that names
/// the path and the cause.
pub fn create_directory(path: &str, outcome: Result<(), String>) -> (result: Result<(), FsError>)
    ensures
        match outcome {
            Ok(_) => result is Ok,
            Err(cause) => match result {
                Err(FsError::CreateDirFailed(d)) => d@ == described(path@, cause@),
                _ => false,
            },
        },
{
    match outcome {
        Ok(_) => Ok(()),
        Err(cause) => Err(FsError::CreateDirFailed(describe(path, cause.as_str()))),
    }
}

/// What deleting a file came to: a failure is an error that names the
/// path and the cause.
pub fn delete_file(path: &str, outcome: Result<(), String>) -> (result: Result<(), FsError>)
    ensures
        match outcome {
            Ok(_) => result is Ok,
            Err(cause) => match result {
                Err(FsError::DeleteFileFailed(d)) => d@ == described(path@, cause@),
                _ => false,
            },
        },
{
    match outcome {
        Ok(_) => Ok(()),
        Err(cause) => Err(FsError::DeleteFileFailed(describe(path, cause.as_str()))),
    }
}

/// What removing a directory came to: a failure is an error that names
/// the path and the cause.
pub fn delete_directory(path: &str, outcome: Result<(), String>) -> (result: Result<(), FsError>)
    ensures
        match outcome {
            Ok(_) => result is Ok,
            Err(cause) => match result {
                Err(FsError::DeleteDirFailed(d)) => d@ == described(path@, cause@),
                _ => false,
            },
        },
{
    match outcome {
        Ok(_) => Ok(()),
        Err(cause) => Err(FsError::DeleteDirFailed(describe(path, cause.as_str()))),
    }
}

/// What renaming came to: a failure is an error that names both paths and
/// the cause.
pub fn rename_item(old_path: &str, new_path: &str, outcome: Result<(), String>) -> (result: Result<
    (),
    FsError,
>)
    ensures
        match outcome {
            Ok(_) => result is Ok,
            Err(cause) => match result {
                Err(FsError::RenameFailed(d)) => d@ == described(
                    old_path@ + " -> "@ + new_path@,
                    cause@,
                ),
                _ => false,
            },
        },
{
    match outcome {
        Ok(_) => Ok(()),
        Err(cause) => {
            let subject = String::from_str(old_path).concat(" -> ").concat(new_path);
            Err(FsError::RenameFailed(describe(subject.as_str(), cause.as_str())))
        },
    }
}

/// The views of the entries, in order.
pub open spec fn local_views(items: Seq<FileInfo>) -> Seq<FileInfoView> {
    Seq::new(items.len(), |i: int| items[i]@)
}

/// The entries in reverse order.
fn reversed<T>(items: Vec<T>) -> (out: Vec<T>)
    ensures
        out@.len() == items@.len(),
        forall|i: int| 0 <= i < out@.len() ==> #[trigger] out@[i] == items@[items@.len() - 1 - i],
{
    let mut rest = items;
    let mut out: Vec<T> = Vec::new();
    while rest.len() > 0
        invariant
            rest@.len() + out@.len() == items@.len(),
            forall|i: int| 0 <= i < rest@.len() ==> #[trigger] rest@[i] == items@[i],
            forall|i: int|
                0 <= i < out@.len() ==> #[trigger] out@[i] == items@[items@.len() - 1 - i],
        decreases rest@.len(),
    {
        let item = rest.pop().unwrap();
        out.push(item);
    }
    out
}

/// Sorts a listing: directories first, then by lower-cased name; entries
/// that compare alike keep their order.
pub fn list_directory(entries: Vec<FileInfo>) -> (listing: Vec<FileInfo>)
    ensures
        is_stable_sort_of(local_views(entries@), local_views(listing@)),
{
    let ghost src = local_views(entries@);
    let mut rest = reversed(entries);
    let mut plain: Vec<RemoteInfo> = Vec::new();
    while rest.len() > 0
        invariant
            rest@.len() + plain@.len() == src.len(),
            forall|i: int|
                0 <= i < rest@.len() ==> (#[trigger] rest@[i])@ == src[src.len() - 1 - i],
            forall|i: int| 0 <= i < plain@.len() ==> (#[trigger] plain@[i])@ == src[i],
        decreases rest@.len(),
    {
        let e = rest.pop().unwrap();
        plain.push(
            RemoteInfo {
                name: e.name,
                path: e.path,
                is_directory: e.is_directory,
                size: e.size,
                modified: e.modified,
                permissions: e.permissions,
            },
        );
    }
    assert(views(plain@) =~= src);
    let sorted = sort_listing(plain);
    let ghost dst = views(sorted@);
    let mut back = reversed(sorted);
    let mut listing: Vec<FileInfo> = Vec::new();
    while back.len() > 0
        invariant
            back@.len() + listing@.len() == dst.len(),
            forall|i: int|
                0 <= i < back@.len() ==> (#[trigger] back@[i])@ == dst[dst.len() - 1 - i],
            forall|i: int| 0 <= i < listing@.len() ==> (#[trigger] listing@[i])@ == dst[i],
        decreases back@.len(),
    {
        let e = back.pop().unwrap();
        listing.push(
            FileInfo {
                name: e.name,
                path: e.path,
                is_directory: e.is_directory,
                size: e.size,
                modified: e.modified,
                permissions: e.permissions,
            },
        );
    }
    assert(local_views(listing@) =~= dst);
    listing
}

} // verus!
