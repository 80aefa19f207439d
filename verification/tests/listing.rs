use rusterm::sftp::listing::{
    file_info, file_name_of, path_is_dot_entry, sort_listing, RemoteEntry, RemoteStat,
};
use rusterm::sftp::{FileInfo, SftpConfig, SftpError, SftpSession};

fn stat(is_dir: bool) -> RemoteStat {
    RemoteStat { is_dir, size: Some(1), mtime: Some(2), perm: Some(0o644) }
}

fn info(name: &str, is_directory: bool, tag: u64) -> FileInfo {
    FileInfo {
        name: name.to_string(),
        path: format!("/d/{}", name),
        is_directory,
        size: tag,
        modified: 0,
        permissions: None,
    }
}

fn session() -> SftpSession<()> {
    let config =
        SftpConfig { host: "h".to_string(), port: 22, username: "u".to_string(), auth_method: None };
    SftpSession::new("id".to_string(), config, ())
}

#[test]
fn file_name_is_the_last_segment() {
    assert_eq!(file_name_of("/home/user/file.txt"), "file.txt");
    assert_eq!(file_name_of("file.txt"), "file.txt");
    assert_eq!(file_name_of("/home/user"), "user");
    assert_eq!(file_name_of("a/b"), "b");
}

#[test]
fn file_name_passes_over_trailing_separators_and_dots() {
    assert_eq!(file_name_of("/home/user/"), "user");
    assert_eq!(file_name_of("/home/user//"), "user");
    assert_eq!(file_name_of("/home/user/."), "user");
    assert_eq!(file_name_of("/home/./user/./"), "user");
}

#[test]
fn file_name_of_root_and_parent_is_empty() {
    assert_eq!(file_name_of(""), "");
    assert_eq!(file_name_of("/"), "");
    assert_eq!(file_name_of("."), "");
    assert_eq!(file_name_of(".."), "");
    assert_eq!(file_name_of("/home/.."), "");
    assert_eq!(file_name_of("a/../"), "");
}

#[test]
fn file_name_keeps_dotted_names() {
    assert_eq!(file_name_of("/home/.bashrc"), ".bashrc");
    assert_eq!(file_name_of("/home/..."), "...");
    assert_eq!(file_name_of("/home/a.."), "a..");
}

#[test]
fn file_name_agrees_with_the_standard_library() {
    let samples = [
        "", "/", "//", ".", "..", "./", "../", "./.", "a", "a/", "a//", "a/.", "a/./", "a/..", "a/../",
        "/a", "/a/b", "/a/b/", "/a/b/.", "/a/./b/./", "/a/b/..", "./a", "../a", "a/b/c.txt", "/.hidden",
        "/a/...", "/a/b..", "/a/..b", "x y/z w", "/tmp/foo.txt/.//", "C:\\Users\\me",
    ];
    for s in samples {
        let expected = std::path::Path::new(s).file_name().and_then(|n| n.to_str()).unwrap_or("");
        assert_eq!(file_name_of(s), expected, "{:?}", s);
    }
}

#[test]
fn dot_entries_are_recognised() {
    assert!(path_is_dot_entry("."));
    assert!(path_is_dot_entry(".."));
    assert!(path_is_dot_entry("/home/user/."));
    assert!(path_is_dot_entry("/home/user/.."));
    assert!(!path_is_dot_entry("/home/user/..."));
    assert!(!path_is_dot_entry("/home/user/.bashrc"));
    assert!(!path_is_dot_entry("/home/user/"));
    assert!(!path_is_dot_entry(""));
}

#[test]
fn file_info_from_attributes() {
    let s = RemoteStat { is_dir: false, size: Some(1234), mtime: Some(1_700_000_000), perm: Some(0o100644) };
    let f = file_info("C:\\Users\\me\\notes.txt", &s);
    assert_eq!(f.name, "C:\\Users\\me\\notes.txt");
    assert_eq!(f.path, "C:/Users/me/notes.txt");
    let f = file_info("/srv/data/notes.txt", &s);
    assert_eq!(f.name, "notes.txt");
    assert_eq!(f.path, "/srv/data/notes.txt");
    assert!(!f.is_directory);
    assert_eq!(f.size, 1234);
    assert_eq!(f.modified, 1_700_000_000);
    assert_eq!(f.permissions, Some("100644".to_string()));
    assert_eq!(f.modified_millis(), Some(1_700_000_000_000));
}

#[test]
fn file_info_without_attributes() {
    let s = RemoteStat { is_dir: true, size: None, mtime: None, perm: None };
    let f = file_info("/srv/data", &s);
    assert_eq!(f.name, "data");
    assert!(f.is_directory);
    assert_eq!(f.size, 0);
    assert_eq!(f.modified, 0);
    assert_eq!(f.permissions, None);
}

#[test]
fn modified_millis_that_does_not_fit() {
    let mut f = info("a", false, 0);
    f.modified = u64::MAX / 1000;
    assert_eq!(f.modified_millis(), Some((u64::MAX / 1000) * 1000));
    f.modified = u64::MAX / 1000 + 1;
    assert_eq!(f.modified_millis(), None);
}

#[test]
fn directories_come_first() {
    let sorted = sort_listing(vec![info("b.txt", false, 0), info("zeta", true, 1), info("a.txt", false, 2), info("alpha", true, 3)]);
    let names: Vec<&str> = sorted.iter().map(|f| f.name.as_str()).collect();
    assert_eq!(names, vec!["alpha", "zeta", "a.txt", "b.txt"]);
}

#[test]
fn names_are_compared_in_lower_case() {
    let sorted = sort_listing(vec![info("banana", false, 0), info("Cherry", false, 1), info("apple", false, 2), info("Apricot", false, 3)]);
    let names: Vec<&str> = sorted.iter().map(|f| f.name.as_str()).collect();
    assert_eq!(names, vec!["apple", "Apricot", "banana", "Cherry"]);
}

#[test]
fn names_that_compare_alike_keep_their_order() {
    let sorted = sort_listing(vec![info("README", false, 0), info("readme", false, 1), info("Readme", false, 2), info("a", false, 3)]);
    let tags: Vec<u64> = sorted.iter().map(|f| f.size).collect();
    assert_eq!(tags, vec![3, 0, 1, 2]);
}

#[test]
fn sorting_keeps_every_entry() {
    let input: Vec<FileInfo> = (0..40u64).map(|i| info(&format!("f{}", (i * 7) % 13), i % 3 == 0, i)).collect();
    let sorted = sort_listing(input.clone());
    assert_eq!(sorted.len(), input.len());
    let mut tags: Vec<u64> = sorted.iter().map(|f| f.size).collect();
    tags.sort();
    assert_eq!(tags, (0..40u64).collect::<Vec<u64>>());
    let mut expected = input;
    expected.sort_by(|a, b| match (a.is_directory, b.is_directory) {
        (true, false) => std::cmp::Ordering::Less,
        (false, true) => std::cmp::Ordering::Greater,
        _ => a.name.to_lowercase().cmp(&b.name.to_lowercase()),
    });
    assert_eq!(sorted, expected);
}

#[test]
fn sorting_nothing_gives_nothing() {
    assert_eq!(sort_listing(Vec::new()), Vec::new());
}

#[test]
fn listing_drops_dot_entries_and_sorts() {
    let entries = vec![
        RemoteEntry { path: "/d/.".to_string(), stat: stat(true) },
        RemoteEntry { path: "/d/zz".to_string(), stat: stat(false) },
        RemoteEntry { path: "/d/..".to_string(), stat: stat(true) },
        RemoteEntry { path: "/d/Sub".to_string(), stat: stat(true) },
        RemoteEntry { path: "/d/aa".to_string(), stat: stat(false) },
    ];
    let listing = session().list_directory("/d", Ok(entries)).unwrap();
    let names: Vec<&str> = listing.iter().map(|f| f.name.as_str()).collect();
    assert_eq!(names, vec!["Sub", "aa", "zz"]);
    assert_eq!(listing[0].path, "/d/Sub");
    assert_eq!(listing[0].permissions, Some("644".to_string()));
    assert_eq!(listing[0].modified, 2);
}

#[test]
fn listing_that_could_not_be_read() {
    let result = session().list_directory("/d", Err("no such file".to_string()));
    assert_eq!(result, Err(SftpError::ReadDirFailed("/d: no such file".to_string())));
}
