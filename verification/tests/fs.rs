use rusterm::fs::operations::{
    create_directory, delete_directory, delete_file, get_file_info, get_user_home, list_directory,
    rename_item, PERMISSION_MASK,
};
use rusterm::fs::{FileInfo, FileListResponse, FsError};

fn info(name: &str, is_directory: bool, tag: u64) -> FileInfo {
    get_file_info(name.to_string(), format!("/d/{}", name), is_directory, tag, 0, None)
}

#[test]
fn local_file_info() {
    assert_eq!(PERMISSION_MASK, 0o777);
    let f = get_file_info("a.txt".to_string(), "/d/a.txt".to_string(), false, 12, 1_700_000_000_000, Some(0o100644));
    assert_eq!(
        f,
        FileInfo {
            name: "a.txt".to_string(),
            path: "/d/a.txt".to_string(),
            is_directory: false,
            size: 12,
            modified: 1_700_000_000_000,
            permissions: Some("644".to_string()),
        }
    );
}

#[test]
fn local_directories_have_no_size() {
    let d = get_file_info("d".to_string(), "/d".to_string(), true, 4096, 5, Some(0o40755));
    assert_eq!(d.size, 0);
    assert_eq!(d.permissions, Some("755".to_string()));
    let n = get_file_info("d".to_string(), "/d".to_string(), true, 4096, 5, None);
    assert_eq!(n.permissions, None);
}

#[test]
fn local_listing_is_sorted_like_a_remote_one() {
    let listing = list_directory(vec![
        info("b", false, 1),
        info("Z", true, 2),
        info("a", false, 3),
        info("B", false, 4),
        info("y", true, 5),
    ]);
    let tags: Vec<u64> = listing.iter().map(|f| f.size).collect();
    assert_eq!(tags, vec![0, 0, 3, 1, 4]);
    let names: Vec<&str> = listing.iter().map(|f| f.name.as_str()).collect();
    assert_eq!(names, vec!["y", "Z", "a", "b", "B"]);
    assert_eq!(list_directory(Vec::new()), Vec::new());
    let response = FileListResponse { path: "/d".to_string(), files: listing };
    assert_eq!(response.files.len(), 5);
}

#[test]
fn error_messages_of_the_file_browser() {
    let cases = [
        (FsError::PathNotFound("x".to_string()), "Path not found: x"),
        (FsError::PermissionDenied("x".to_string()), "Permission denied: x"),
        (FsError::ReadDirFailed("x".to_string()), "Failed to read directory: x"),
        (FsError::CreateDirFailed("x".to_string()), "Failed to create directory: x"),
        (FsError::DeleteFileFailed("x".to_string()), "Failed to delete file: x"),
        (FsError::DeleteDirFailed("x".to_string()), "Failed to delete directory: x"),
        (FsError::RenameFailed("x".to_string()), "Failed to rename item: x"),
        (FsError::IoError("x".to_string()), "IO error: x"),
    ];
    for (error, text) in cases {
        assert_eq!(error.message(), text);
    }
}

#[test]
fn outcomes_of_local_operations() {
    assert_eq!(get_user_home(Some("/home/me".to_string())), Ok("/home/me".to_string()));
    assert_eq!(get_user_home(None), Err(FsError::PathNotFound("Home directory not found".to_string())));
    assert_eq!(create_directory("/a", Ok(())), Ok(()));
    assert_eq!(create_directory("/a", Err("e".to_string())), Err(FsError::CreateDirFailed("/a: e".to_string())));
    assert_eq!(delete_file("/a", Ok(())), Ok(()));
    assert_eq!(delete_file("/a", Err("e".to_string())), Err(FsError::DeleteFileFailed("/a: e".to_string())));
    assert_eq!(delete_directory("/a", Ok(())), Ok(()));
    assert_eq!(delete_directory("/a", Err("e".to_string())), Err(FsError::DeleteDirFailed("/a: e".to_string())));
    assert_eq!(rename_item("/a", "/b", Ok(())), Ok(()));
    assert_eq!(rename_item("/a", "/b", Err("e".to_string())), Err(FsError::RenameFailed("/a -> /b: e".to_string())));
}
