//! Removing a remote directory with all it holds: depth first, what a
//! directory holds before the directory itself, stopping at the first
//! failure.

use vstd::prelude::*;
use crate::sftp::listing::RemoteEntry;
use crate::sftp::session::described;
use crate::sftp::types::SftpError;

verus! {

/// One piece of work that is still to do.
#[derive(Debug, Clone, PartialEq, Eq)]
pub enum DeleteTask {
    /// Read the directory and plan the removal of what it holds.
    Visit(String),
    /// Delete the file.
    Unlink(String),
    /// Remove the directory, which is empty by then.
    RemoveDir(String),
}

/// A task as plain values.
pub enum DeleteTaskView {
    Visit(Seq<char>),
    Unlink(Seq<char>),
    RemoveDir(Seq<char>),
}

impl DeleteTask {
    /// The task as plain values.
    pub open spec fn as_view(self) -> DeleteTaskView {
        match self {
            DeleteTask::Visit(p) => DeleteTaskView::Visit(p@),
            DeleteTask::Unlink(p) => DeleteTaskView::Unlink(p@),
            DeleteTask::RemoveDir(p) => DeleteTaskView::RemoveDir(p@),
        }
    }
}

impl DeleteTaskView {
    /// The path that the task works on.
    pub open spec fn path(self) -> Seq<char> {
        match self {
            DeleteTaskView::Visit(p) => p,
            DeleteTaskView::Unlink(p) => p,
            DeleteTaskView::RemoveDir(p) => p,
        }
    }
}

/// Why a plan gave up, as plain values: whether a file could not be
/// deleted (else it was a directory that could not be read or removed),
/// and the detail of the error.
pub struct DeleteFailure {
    pub on_file: bool,
    pub detail: Seq<char>,
}

/// The state of a plan as plain values. The task to do next is the last of
/// `stack`.
pub struct DeletePlanView {
    pub stack: Seq<DeleteTaskView>,
    pub failed: Option<DeleteFailure>,
}

/// What a plan asks for next, as plain values.
pub enum DeleteActionView {
    List(Seq<char>),
    Unlink(Seq<char>),
    RemoveDir(Seq<char>),
    Succeed,
    Fail(DeleteFailure),
}

/// The task that removes one entry of a directory: a visit for a
/// directory, a deletion for anything else.
pub open spec fn task_for(entry: RemoteEntry) -> DeleteTaskView {
    if entry.stat.is_dir {
        DeleteTaskView::Visit(entry.path@)
    } else {
        DeleteTaskView::Unlink(entry.path@)
    }
}

/// The tasks for the entries of a directory, stacked so that the first
/// entry is worked on first.
pub open spec fn tasks_for(entries: Seq<RemoteEntry>) -> Seq<DeleteTaskView> {
    Seq::new(entries.len(), |i: int| task_for(entries[entries.len() - 1 - i]))
}

impl DeletePlanView {
    /// The plan for removing the directory at `path`.
    pub open spec fn start(path: Seq<char>) -> DeletePlanView {
        DeletePlanView { stack: seq![DeleteTaskView::Visit(path)], failed: None }
    }

    /// Whether the plan still has work to do.
    pub open spec fn active(self) -> bool {
        self.failed is None && self.stack.len() > 0
    }

    /// What the plan asks for next.
    pub open spec fn action(self) -> DeleteActionView {
        if self.failed is Some {
            DeleteActionView::Fail(self.failed->0)
        } else if self.stack.len() == 0 {
            DeleteActionView::Succeed
        } else {
            match self.stack.last() {
                DeleteTaskView::Visit(p) => DeleteActionView::List(p),
                DeleteTaskView::Unlink(p) => DeleteActionView::Unlink(p),
                DeleteTaskView::RemoveDir(p) => DeleteActionView::RemoveDir(p),
            }
        }
    }

    /// The plan after the server listed the directory asked about: the
    /// directory is removed once all its entries are, and the entries are
    /// worked on in the order listed.
    pub open spec fn after_listed(self, entries: Seq<RemoteEntry>) -> DeletePlanView {
        if self.active() && self.stack.last() is Visit {
            DeletePlanView {
                stack: self.stack.drop_last().push(
                    DeleteTaskView::RemoveDir(self.stack.last().path()),
                ) + tasks_for(entries),
                failed: None,
            }
        } else {
            self
        }
    }

    /// The plan after the server deleted the file or removed the directory
    /// asked for.
    pub open spec fn after_done(self) -> DeletePlanView {
        if self.active() && !(self.stack.last() is Visit) {
            DeletePlanView { stack: self.stack.drop_last(), failed: None }
        } else {
            self
        }
    }

    /// The plan after the server refused what was asked for: the plan
    /// gives up, and the error names the path and the cause.
    pub open spec fn after_failed(self, cause: Seq<char>) -> DeletePlanView {
        if self.active() {
            DeletePlanView {
                stack: self.stack,
                failed: Some(
                    DeleteFailure {
                        on_file: self.stack.last() is Unlink,
                        detail: described(self.stack.last().path(), cause),
                    },
                ),
            }
        } else {
            self
        }
    }
}

/// What a plan asks of the caller next.
#[derive(Debug, Clone, PartialEq, Eq)]
pub enum DeleteAction {
    /// Ask the server for the entries of this directory.
    List(String),
    /// Ask the server to delete this file.
    Unlink(String),
    /// Ask the server to remove this directory.
    RemoveDir(String),
    /// Everything is removed.
    Succeed,
    /// Give up with this error.
    Fail(SftpError),
}

impl DeleteAction {
    /// The action as plain values.
    pub open spec fn as_view(self) -> DeleteActionView {
        match self {
            DeleteAction::List(p) => DeleteActionView::List(p@),
            DeleteAction::Unlink(p) => DeleteActionView::Unlink(p@),
            DeleteAction::RemoveDir(p) => DeleteActionView::RemoveDir(p@),
            DeleteAction::Succeed => DeleteActionView::Succeed,
            DeleteAction::Fail(e) => DeleteActionView::Fail(
                DeleteFailure { on_file: e is DeleteFileFailed, detail: e.detail() },
            ),
        }
    }
}

/// The plan for removing one directory with all it holds. The caller asks
/// for the action, performs it, and tells the plan the server's answer,
/// until the action is `Succeed` or `Fail`.
#[derive(Debug, Clone)]
pub struct DeletePlan {
    stack: Vec<DeleteTask>,
    failed: Option<(bool, String)>,
}

impl View for DeletePlan {
    type V = DeletePlanView;

    closed spec fn view(&self) -> DeletePlanView {
        DeletePlanView {
            stack: Seq::new(self.stack@.len(), |i: int| self.stack@[i].as_view()),
            failed: match self.failed {
                Some((on_file, detail)) => Some(DeleteFailure { on_file, detail: detail@ }),
                None => None,
            },
        }
    }
}

impl DeletePlan {
    /// The plan for removing the directory at `path`.
    pub fn new(path: &str) -> (plan: DeletePlan)
        ensures
            plan@ == DeletePlanView::start(path@),
    {
        let mut stack: Vec<DeleteTask> = Vec::new();
        stack.push(DeleteTask::Visit(String::from_str(path)));
        let plan = DeletePlan { stack, failed: None };
        assert(plan@.stack =~= seq![DeleteTaskView::Visit(path@)]);
        plan
    }

    /// What to do next.
    pub fn action(&self) -> (action: DeleteAction)
        ensures
            action.as_view() == self@.action(),
            match action {
                DeleteAction::Fail(e) => e is DeleteFileFailed || e is DeleteDirFailed,
                _ => true,
            },
    {
        match &self.failed {
            Some((on_file, detail)) => {
                if *on_file {
                    DeleteAction::Fail(SftpError::DeleteFileFailed(detail.clone()))
                } else {
                    DeleteAction::Fail(SftpError::DeleteDirFailed(detail.clone()))
                }
            },
            None => {
                if self.stack.len() == 0 {
                    DeleteAction::Succeed
                } else {
                    let top = &self.stack[self.stack.len() - 1];
                    assert(self@.stack.last() == top.as_view());
                    match top {
                        DeleteTask::Visit(p) => DeleteAction::List(p.clone()),
                        DeleteTask::Unlink(p) => DeleteAction::Unlink(p.clone()),
                        DeleteTask::RemoveDir(p) => DeleteAction::RemoveDir(p.clone()),
                    }
                }
            },
        }
    }

    /// The server listed the directory asked about.
    pub fn listed(&mut self, entries: &Vec<RemoteEntry>)
        ensures
            final(self)@ == old(self)@.after_listed(entries@),
    {
        if self.failed.is_some() || self.stack.len() == 0 {
            return ;
        }
        let ghost before = self@;
        assert(before.stack.last() == self.stack@[self.stack@.len() - 1].as_view());
        let top = self.stack.pop().unwrap();
        match top {
            DeleteTask::Visit(dir) => {
                self.stack.push(DeleteTask::RemoveDir(dir));
                let ghost base = self@.stack;
                assert(base =~= before.stack.drop_last().push(
                    DeleteTaskView::RemoveDir(before.stack.last().path()),
                ));
                let n: usize = entries.len();
                let mut i: usize = 0;
                while i < n
                    invariant
                        i <= n,
                        n == entries@.len(),
                        self.failed is None,
                        self@.stack == base + tasks_for(entries@).take(i as int),
                    decreases n - i,
                {
                    let entry = &entries[n - 1 - i];
                    let ghost stacked = self@.stack;
                    let task = if entry.stat.is_dir {
                        DeleteTask::Visit(entry.path.clone())
                    } else {
                        DeleteTask::Unlink(entry.path.clone())
                    };
                    assert(task.as_view() == task_for(entries@[n - 1 - i]));
                    self.stack.push(task);
                    i += 1;
                    assert(self@.stack =~= stacked.push(task.as_view()));
                    assert(tasks_for(entries@).take(i as int) =~= tasks_for(entries@).take(
                        i as int - 1,
                    ).push(task_for(entries@[n - i])));
                    assert(self@.stack =~= base + tasks_for(entries@).take(i as int));
                }
                assert(tasks_for(entries@).take(n as int) =~= tasks_for(entries@));
            },
            other => {
                self.stack.push(other);
                assert(self@.stack =~= before.stack);
            },
        }
    }

    /// The server deleted the file or removed the directory asked for.
    pub fn done(&mut self)
        ensures
            final(self)@ == old(self)@.after_done(),
    {
        if self.failed.is_some() || self.stack.len() == 0 {
            return ;
        }
        let ghost before = self@;
        assert(before.stack.last() == self.stack@[self.stack@.len() - 1].as_view());
        let top = self.stack.pop().unwrap();
        match top {
            DeleteTask::Visit(dir) => {
                self.stack.push(DeleteTask::Visit(dir));
                assert(self@.stack =~= before.stack);
            },
            _ => {
                assert(self@.stack =~= before.stack.drop_last());
            },
        }
    }

    /// The server refused what was asked for, with this cause.
    pub fn failed(&mut self, cause: &str)
        ensures
            final(self)@ == old(self)@.after_failed(cause@),
    {
        if self.failed.is_some() || self.stack.len() == 0 {
            return ;
        }
        let top = &self.stack[self.stack.len() - 1];
        assert(self@.stack.last() == top.as_view());
        let (on_file, path) = match top {
            DeleteTask::Visit(p) => (false, p.clone()),
            DeleteTask::Unlink(p) => (true, p.clone()),
            DeleteTask::RemoveDir(p) => (false, p.clone()),
        };
        let detail = path.concat(": ").concat(cause);
        self.failed = Some((on_file, detail));
        assert(self@.stack =~= old(self)@.stack);
    }
}

} // verus!
