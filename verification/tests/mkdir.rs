use rusterm::sftp::mkdir::{mkdir_target_list, MkdirAction, MkdirPlan, DIRECTORY_MODE};
use rusterm::sftp::SftpError;

/// A server held in memory: the directories, the paths that are something
/// else, and the paths under which nothing may be created.
struct Server {
    dirs: Vec<String>,
    files: Vec<String>,
    denied: Vec<String>,
    created_modes: Vec<i32>,
}

impl Server {
    fn new(dirs: &[&str], files: &[&str], denied: &[&str]) -> Server {
        Server {
            dirs: dirs.iter().map(|s| s.to_string()).collect(),
            files: files.iter().map(|s| s.to_string()).collect(),
            denied: denied.iter().map(|s| s.to_string()).collect(),
            created_modes: Vec::new(),
        }
    }

    fn mkdir(&mut self, path: &str, mode: i32) -> Result<(), String> {
        if self.dirs.iter().any(|d| d == path) || self.files.iter().any(|f| f == path) {
            return Err("file exists".to_string());
        }
        if self.denied.iter().any(|d| d == path) {
            return Err("permission denied".to_string());
        }
        self.dirs.push(path.to_string());
        self.created_modes.push(mode);
        Ok(())
    }

    fn stat(&self, path: &str) -> Option<bool> {
        if self.dirs.iter().any(|d| d == path) {
            Some(true)
        } else if self.files.iter().any(|f| f == path) {
            Some(false)
        } else {
            None
        }
    }
}

fn mkdir_p(server: &mut Server, path: &str) -> Result<(), SftpError> {
    let mut plan = MkdirPlan::new(path);
    for _ in 0..1000 {
        match plan.action() {
            MkdirAction::Succeed => return Ok(()),
            MkdirAction::Fail(e) => return Err(e),
            MkdirAction::Create(target) => match server.mkdir(&target, DIRECTORY_MODE) {
                Ok(()) => plan.created(),
                Err(e) => plan.refused(&e),
            },
            MkdirAction::Inspect(target) => plan.inspected(server.stat(&target)),
        }
    }
    panic!("the plan did not end");
}

#[test]
fn directories_are_created_with_mode_755() {
    assert_eq!(DIRECTORY_MODE, 0o755);
}

#[test]
fn targets_of_an_absolute_path() {
    assert_eq!(mkdir_target_list("/tmp/a/b/c"), vec!["/tmp", "/tmp/a", "/tmp/a/b", "/tmp/a/b/c"]);
}

#[test]
fn targets_of_a_relative_path() {
    assert_eq!(mkdir_target_list("a/b"), vec!["a", "a/b"]);
    assert_eq!(mkdir_target_list("a"), vec!["a"]);
}

#[test]
fn targets_pass_over_empty_segments() {
    assert_eq!(mkdir_target_list("/a//b/"), vec!["/a", "/a/b"]);
    assert_eq!(mkdir_target_list("//a"), vec!["/a"]);
    assert_eq!(mkdir_target_list("a//"), vec!["a"]);
}

#[test]
fn targets_of_nothing() {
    assert_eq!(mkdir_target_list(""), Vec::<String>::new());
    assert_eq!(mkdir_target_list("/"), Vec::<String>::new());
    assert_eq!(mkdir_target_list("///"), Vec::<String>::new());
}

#[test]
fn targets_count_backslashes_as_separators() {
    assert_eq!(mkdir_target_list("C:\\Users\\me"), vec!["C:", "C:/Users", "C:/Users/me"]);
    assert_eq!(mkdir_target_list("\\srv\\x"), vec!["/srv", "/srv/x"]);
}

#[test]
fn sftp_mkdir_p_twice() {
    let mut server = Server::new(&["/tmp"], &[], &[]);
    assert_eq!(mkdir_p(&mut server, "/tmp/a/b/c"), Ok(()));
    let after_first = server.dirs.clone();
    assert_eq!(after_first, vec!["/tmp", "/tmp/a", "/tmp/a/b", "/tmp/a/b/c"]);
    assert_eq!(server.created_modes, vec![0o755, 0o755, 0o755]);
    assert_eq!(mkdir_p(&mut server, "/tmp/a/b/c"), Ok(()));
    assert_eq!(server.dirs, after_first);
    assert_eq!(server.created_modes.len(), 3);
}

#[test]
fn mkdir_p_of_nothing_asks_nothing() {
    let mut plan = MkdirPlan::new("/");
    assert_eq!(plan.action(), MkdirAction::Succeed);
    plan.created();
    plan.refused("x");
    plan.inspected(None);
    assert_eq!(plan.action(), MkdirAction::Succeed);
}

#[test]
fn mkdir_p_stops_at_a_file() {
    let mut server = Server::new(&["/tmp"], &["/tmp/a"], &[]);
    let result = mkdir_p(&mut server, "/tmp/a/b");
    assert_eq!(
        result,
        Err(SftpError::CreateDirFailed("/tmp/a: Path exists but is not a directory".to_string()))
    );
    assert_eq!(server.dirs, vec!["/tmp"]);
}

#[test]
fn mkdir_p_passes_a_refusal_on() {
    let mut server = Server::new(&[], &[], &["/srv/x"]);
    let result = mkdir_p(&mut server, "/srv/x/y");
    assert_eq!(result, Err(SftpError::CreateDirFailed("/srv/x: permission denied".to_string())));
    assert_eq!(server.dirs, vec!["/srv"]);
    let again = mkdir_p(&mut server, "/srv/x/y");
    assert_eq!(again, Err(SftpError::CreateDirFailed("/srv/x: permission denied".to_string())));
    assert_eq!(server.dirs, vec!["/srv"]);
}

#[test]
fn plan_asks_to_inspect_after_a_refusal() {
    let mut plan = MkdirPlan::new("a/b");
    assert_eq!(plan.action(), MkdirAction::Create("a".to_string()));
    plan.inspected(Some(true));
    assert_eq!(plan.action(), MkdirAction::Create("a".to_string()));
    plan.refused("exists");
    assert_eq!(plan.action(), MkdirAction::Inspect("a".to_string()));
    plan.created();
    plan.refused("again");
    assert_eq!(plan.action(), MkdirAction::Inspect("a".to_string()));
    plan.inspected(Some(true));
    assert_eq!(plan.action(), MkdirAction::Create("a/b".to_string()));
    plan.created();
    assert_eq!(plan.action(), MkdirAction::Succeed);
}

#[test]
fn a_failed_plan_stays_failed() {
    let mut plan = MkdirPlan::new("a/b");
    plan.refused("no");
    plan.inspected(None);
    let failed = MkdirAction::Fail(SftpError::CreateDirFailed("a: no".to_string()));
    assert_eq!(plan.action(), failed);
    plan.created();
    plan.inspected(Some(true));
    plan.refused("other");
    assert_eq!(plan.action(), failed);
}
