//! Creating a remote directory together with the parents it lacks: the
//! paths to create, in order, and what to do with each answer of the
//! server.

use vstd::prelude::*;
use crate::text::{chars_of, string_of, unix_separators};
use crate::sftp::types::SftpError;

verus! {

/// The permission bits that new directories are created with.
pub const DIRECTORY_MODE: i32 = 0o755;

/// Index of the first `/` of `s`; its length where it has none.
pub open spec fn first_slash(s: Seq<char>) -> int
    decreases s.len(),
{
    if s.len() == 0 || s[0] == '/' {
        0
    } else {
        1 + first_slash(s.drop_first())
    }
}

/// `current` with one more segment: a `/` goes between them unless
/// `current` is empty or the root.
pub open spec fn extended(current: Seq<char>, segment: Seq<char>) -> Seq<char> {
    if current.len() == 0 || current == seq!['/'] {
        current + segment
    } else {
        current + seq!['/'] + segment
    }
}

/// The directories to create for the segments of `rest`, each one the
/// previous path with the next segment that is not empty; `current` is the
/// path reached so far.
pub open spec fn targets_from(current: Seq<char>, rest: Seq<char>) -> Seq<Seq<char>>
    decreases rest.len(),
    via targets_from_decreases
{
    if rest.len() == 0 {
        Seq::empty()
    } else {
        let k = first_slash(rest);
        let tail = if k < rest.len() {
            rest.skip(k + 1)
        } else {
            Seq::empty()
        };
        if k == 0 {
            targets_from(current, tail)
        } else {
            let next = extended(current, rest.take(k));
            seq![next] + targets_from(next, tail)
        }
    }
}

#[via_fn]
proof fn targets_from_decreases(current: Seq<char>, rest: Seq<char>) {
    lemma_first_slash_bounds(rest);
}

/// The directories that creating `path` with its parents asks for, the
/// outermost first. Backslashes count as separators; a leading separator
/// makes the paths absolute; empty segments are passed over.
pub open spec fn mkdir_targets(path: Seq<char>) -> Seq<Seq<char>> {
    let s = unix_separators(path);
    if s.len() > 0 && s[0] == '/' {
        targets_from(seq!['/'], s.skip(1))
    } else {
        targets_from(Seq::empty(), s)
    }
}

/// `first_slash` lies within the sequence and marks a `/` unless it is the
/// length.
pub proof fn lemma_first_slash_bounds(s: Seq<char>)
    ensures
        0 <= first_slash(s) <= s.len(),
        first_slash(s) < s.len() ==> s[first_slash(s)] == '/',
    decreases s.len(),
{
    if s.len() > 0 && s[0] != '/' {
        lemma_first_slash_bounds(s.drop_first());
    }
}

/// Where no character before `k` is a `/` and a `/` or the end stands at
/// `k`, the first `/` is at `k`.
pub proof fn lemma_first_slash_found(s: Seq<char>, k: int)
    requires
        0 <= k <= s.len(),
        forall|j: int| 0 <= j < k ==> #[trigger] s[j] != '/',
        k < s.len() ==> s[k] == '/',
    ensures
        first_slash(s) == k,
    decreases k,
{
    if k > 0 {
        let t = s.drop_first();
        assert forall|j: int| 0 <= j < k - 1 implies #[trigger] t[j] != '/' by {
            assert(t[j] == s[j + 1]);
        }
        if k < s.len() {
            assert(t[k - 1] == s[k]);
        }
        lemma_first_slash_found(t, k - 1);
    }
}

/// The directories to create for `path`, the outermost first.
pub fn mkdir_target_list(path: &str) -> (targets: Vec<String>)
    ensures
        targets@.len() == mkdir_targets(path@).len(),
        forall|i: int| 0 <= i < targets@.len() ==> (#[trigger] targets@[i])@ == mkdir_targets(path@)[i],
{
    let raw = chars_of(path);
    let n: usize = raw.len();
    // Separators are unified first.
    let mut chars: Vec<char> = Vec::new();
    let mut c: usize = 0;
    while c < n
        invariant
            c <= n,
            n == raw.len(),
            raw@ == path@,
            chars@ == unix_separators(path@).take(c as int),
        decreases n - c,
    {
        let ch = raw[c];
        if ch == '\\' {
            chars.push('/');
        } else {
            chars.push(ch);
        }
        c += 1;
        assert(chars@ =~= unix_separators(path@).take(c as int));
    }
    assert(chars@ =~= unix_separators(path@));
    let mut targets: Vec<String> = Vec::new();
    let mut current: Vec<char> = Vec::new();
    let mut i: usize = 0;
    if n > 0 && chars[0] == '/' {
        current.push('/');
        i = 1;
        assert(current@ =~= seq!['/']);
        assert(chars@.skip(1) =~= chars@.subrange(1, n as int));
    } else {
        assert(chars@ =~= chars@.subrange(0, n as int));
    }
    let ghost all = mkdir_targets(path@);
    let ghost mut done: Seq<Seq<char>> = Seq::empty();
    assert(all =~= done + targets_from(current@, chars@.subrange(i as int, n as int)));
    while i < n
        invariant
            i <= n,
            n == chars.len(),
            done.len() == targets@.len(),
            forall|j: int| 0 <= j < targets@.len() ==> (#[trigger] targets@[j])@ == done[j],
            all == done + targets_from(current@, chars@.subrange(i as int, n as int)),
        decreases n - i,
    {
        let ghost rest = chars@.subrange(i as int, n as int);
        let mut k: usize = i;
        while k < n && chars[k] != '/'
            invariant
                i <= k <= n,
                n == chars.len(),
                rest == chars@.subrange(i as int, n as int),
                forall|j: int| 0 <= j < k - i ==> #[trigger] rest[j] != '/',
            decreases n - k,
        {
            k += 1;
        }
        proof {
            if k < n {
                assert(rest[k - i] == chars@[k as int]);
            }
            lemma_first_slash_found(rest, k - i);
        }
        let ghost before = current@;
        if k > i {
            let bare = current.len() == 0 || (current.len() == 1 && current[0] == '/');
            proof {
                if current@ == seq!['/'] {
                    assert(current@.len() == 1 && current@[0] == '/');
                }
                if current.len() == 1 && current@[0] == '/' {
                    assert(current@ =~= seq!['/']);
                }
            }
            if !bare {
                current.push('/');
            }
            let mut j: usize = i;
            while j < k
                invariant
                    i <= j <= k <= n,
                    n == chars.len(),
                    rest == chars@.subrange(i as int, n as int),
                    current@ == (if bare {
                        before
                    } else {
                        before + seq!['/']
                    }) + rest.take(j - i),
                decreases k - j,
            {
                current.push(chars[j]);
                j += 1;
                proof {
                    assert(rest[j - i - 1] == chars@[j as int - 1]);
                    assert(rest.take(j - i) =~= rest.take(j - i - 1).push(rest[j - i - 1]));
                    assert(current@ =~= (if bare {
                        before
                    } else {
                        before + seq!['/']
                    }) + rest.take(j - i));
                }
            }
            assert(current@ == extended(before, rest.take(k - i)));
            targets.push(string_of(&current));
            proof {
                done = done.push(current@);
            }
        }
        let ghost tail = if k < n {
            rest.skip(k - i + 1)
        } else {
            Seq::empty()
        };
        proof {
            if k > i {
                assert(targets_from(before, rest) == seq![current@] + targets_from(current@, tail));
                assert(all =~= done + targets_from(current@, tail));
            } else {
                assert(targets_from(before, rest) == targets_from(before, tail));
            }
        }
        if k < n {
            i = k + 1;
            assert(tail =~= chars@.subrange(i as int, n as int));
        } else {
            i = n;
            assert(tail =~= chars@.subrange(i as int, n as int));
        }
    }
    proof {
        assert(chars@.subrange(n as int, n as int).len() == 0);
        assert(all =~= done);
    }
    targets
}

/// What follows the path in the message when the path exists and is no
/// directory.
pub open spec fn not_a_directory_text() -> Seq<char> {
    ": Path exists but is not a directory"@
}

/// The detail of the error for a path that could not be created: it
/// exists and is no directory, or it is absent and the server's refusal is
/// passed on.
pub open spec fn failure_detail(target: Seq<char>, refusal: Seq<char>, found: Option<bool>) -> Seq<
    char,
> {
    match found {
        Some(_) => target + not_a_directory_text(),
        None => target + ": "@ + refusal,
    }
}

/// The state of a plan as plain values.
pub struct MkdirPlanView {
    /// The directories to create, the outermost first.
    pub targets: Seq<Seq<char>>,
    /// How many of them are known to exist.
    pub next: nat,
    /// The server's refusal to create the next one, while that path is
    /// being inspected.
    pub refusal: Option<Seq<char>>,
    /// The detail of the error that ended the plan.
    pub failed: Option<Seq<char>>,
}

/// What a plan asks for next, as plain values.
pub enum MkdirActionView {
    Create(Seq<char>),
    Inspect(Seq<char>),
    Succeed,
    Fail(Seq<char>),
}

impl MkdirPlanView {
    /// The plan before anything was asked of the server.
    pub open spec fn start(targets: Seq<Seq<char>>) -> MkdirPlanView {
        MkdirPlanView { targets, next: 0, refusal: None, failed: None }
    }

    /// Whether the plan has ended.
    pub open spec fn finished(self) -> bool {
        self.failed is Some || self.next >= self.targets.len()
    }

    /// Whether the plan waits for the answer to a request to create.
    pub open spec fn awaits_create(self) -> bool {
        !self.finished() && self.refusal is None
    }

    /// Whether the plan waits for the answer to a request to inspect.
    pub open spec fn awaits_inspect(self) -> bool {
        !self.finished() && self.refusal is Some
    }

    /// What the plan asks for next.
    pub open spec fn action(self) -> MkdirActionView {
        if self.failed is Some {
            MkdirActionView::Fail(self.failed->0)
        } else if self.next >= self.targets.len() {
            MkdirActionView::Succeed
        } else if self.refusal is Some {
            MkdirActionView::Inspect(self.targets[self.next as int])
        } else {
            MkdirActionView::Create(self.targets[self.next as int])
        }
    }

    /// The plan after the server created the directory asked for.
    pub open spec fn after_created(self) -> MkdirPlanView {
        if self.awaits_create() {
            MkdirPlanView { next: self.next + 1, ..self }
        } else {
            self
        }
    }

    /// The plan after the server refused to create the directory.
    pub open spec fn after_refused(self, refusal: Seq<char>) -> MkdirPlanView {
        if self.awaits_create() {
            MkdirPlanView { refusal: Some(refusal), ..self }
        } else {
            self
        }
    }

    /// The plan after the server said what is at the path: a directory
    /// (`Some(true)`), something else (`Some(false)`), or nothing it can
    /// tell of (`None`).
    pub open spec fn after_inspected(self, found: Option<bool>) -> MkdirPlanView {
        if self.awaits_inspect() {
            if found == Some(true) {
                MkdirPlanView { next: self.next + 1, refusal: None, ..self }
            } else {
                MkdirPlanView {
                    failed: Some(
                        failure_detail(self.targets[self.next as int], self.refusal->0, found),
                    ),
                    ..self
                }
            }
        } else {
            self
        }
    }

    /// An upper bound on the requests still to come.
    pub open spec fn steps_left(self) -> nat {
        if self.finished() {
            0
        } else if self.refusal is Some {
            (2 * (self.targets.len() - self.next) - 1) as nat
        } else {
            (2 * (self.targets.len() - self.next)) as nat
        }
    }
}

/// A remote file system as far as creating directories can tell: the
/// paths that are directories and the paths that are something else.
pub struct RemoteTree {
    pub dirs: Set<Seq<char>>,
    pub others: Set<Seq<char>>,
}

impl RemoteTree {
    /// Whether anything is at the path.
    pub open spec fn occupied(self, path: Seq<char>) -> bool {
        self.dirs.contains(path) || self.others.contains(path)
    }

    /// What inspecting the path tells.
    pub open spec fn lookup(self, path: Seq<char>) -> Option<bool> {
        if self.dirs.contains(path) {
            Some(true)
        } else if self.others.contains(path) {
            Some(false)
        } else {
            None
        }
    }

    /// The tree with one more directory.
    pub open spec fn with_dir(self, path: Seq<char>) -> RemoteTree {
        RemoteTree { dirs: self.dirs.insert(path), others: self.others }
    }
}

/// A server's policy: for a tree and a path, the refusal it answers a
/// request to create with, or `None` where it creates the directory.
pub type Policy = spec_fn(RemoteTree, Seq<char>) -> Option<Seq<char>>;

/// A server never creates a directory where something is already.
pub open spec fn respects_occupied(policy: Policy) -> bool {
    forall|tree: RemoteTree, path: Seq<char>|
        tree.occupied(path) ==> (#[trigger] policy(tree, path)) is Some
}

/// The plan and the tree after the plan has run to its end against a
/// server with the given policy.
pub open spec fn run(plan: MkdirPlanView, tree: RemoteTree, policy: Policy) -> (MkdirPlanView, RemoteTree)
    decreases plan.steps_left(),
{
    if plan.finished() {
        (plan, tree)
    } else {
        let target = plan.targets[plan.next as int];
        if plan.refusal is Some {
            run(plan.after_inspected(tree.lookup(target)), tree, policy)
        } else {
            match policy(tree, target) {
                Some(refusal) => run(plan.after_refused(refusal), tree, policy),
                None => run(plan.after_created(), tree.with_dir(target), policy),
            }
        }
    }
}

/// What a run tells the caller: `None` for success, else the detail of the
/// error.
pub open spec fn run_result(plan: MkdirPlanView, tree: RemoteTree, policy: Policy) -> Option<
    Seq<char>,
> {
    run(plan, tree, policy).0.failed
}

/// The tree that a run leaves behind.
pub open spec fn run_tree(plan: MkdirPlanView, tree: RemoteTree, policy: Policy) -> RemoteTree {
    run(plan, tree, policy).1
}

/// What is known of a tree `after` a run that started at target `from`:
/// the targets from there up to `reached` are directories of it; and where
/// the run failed, it failed at `reached`, on the server's answers in
/// `after`.
pub open spec fn settled(
    targets: Seq<Seq<char>>,
    from: int,
    reached: int,
    failed: Option<Seq<char>>,
    after: RemoteTree,
    policy: Policy,
) -> bool {
    &&& from <= reached <= targets.len()
    &&& forall|i: int| from <= i < reached ==> after.dirs.contains(#[trigger] targets[i])
    &&& match failed {
        None => reached == targets.len(),
        Some(detail) => {
            &&& reached < targets.len()
            &&& policy(after, targets[reached]) is Some
            &&& after.lookup(targets[reached]) != Some(true)
            &&& detail == failure_detail(
                targets[reached],
                policy(after, targets[reached])->0,
                after.lookup(targets[reached]),
            )
        },
    }
}

/// A run from a state that waits to create leaves a settled tree.
pub proof fn lemma_run_settles(plan: MkdirPlanView, tree: RemoteTree, policy: Policy)
    requires
        respects_occupied(policy),
        plan.failed is None,
        plan.refusal is None,
        plan.next <= plan.targets.len(),
    ensures
        run(plan, tree, policy).0.targets == plan.targets,
        settled(
            plan.targets,
            plan.next as int,
            run(plan, tree, policy).0.next as int,
            run(plan, tree, policy).0.failed,
            run(plan, tree, policy).1,
            policy,
        ),
        forall|p: Seq<char>| #[trigger]
            tree.dirs.contains(p) ==> run(plan, tree, policy).1.dirs.contains(p),
    decreases plan.targets.len() - plan.next,
{
    if !plan.finished() {
        let target = plan.targets[plan.next as int];
        match policy(tree, target) {
            Some(refusal) => {
                let asked = plan.after_refused(refusal);
                let told = asked.after_inspected(tree.lookup(target));
                assert(run(plan, tree, policy) == run(asked, tree, policy));
                assert(run(asked, tree, policy) == run(told, tree, policy));
                if tree.lookup(target) == Some(true) {
                    lemma_run_settles(told, tree, policy);
                    let after = run(told, tree, policy).1;
                    assert(after.dirs.contains(target));
                    assert forall|i: int| plan.next <= i < run(told, tree, policy).0.next implies after.dirs.contains(
                        #[trigger] plan.targets[i],
                    ) by {
                        if i == plan.next {
                        }
                    }
                } else {
                    assert(told.finished());
                }
            },
            None => {
                let made = plan.after_created();
                let grown = tree.with_dir(target);
                assert(run(plan, tree, policy) == run(made, grown, policy));
                lemma_run_settles(made, grown, policy);
                let after = run(made, grown, policy).1;
                assert(grown.dirs.contains(target));
                assert forall|p: Seq<char>| #[trigger] tree.dirs.contains(p) implies after.dirs.contains(
                    p,
                ) by {
                    assert(grown.dirs.contains(p));
                }
                assert forall|i: int| plan.next <= i < run(made, grown, policy).0.next implies after.dirs.contains(
                    #[trigger] plan.targets[i],
                ) by {
                    if i == plan.next {
                    }
                }
            },
        }
    }
}

/// A run over a settled tree changes nothing and ends as the run that
/// settled it.
pub proof fn lemma_rerun_repeats(
    plan: MkdirPlanView,
    reached: int,
    failed: Option<Seq<char>>,
    tree: RemoteTree,
    policy: Policy,
)
    requires
        respects_occupied(policy),
        plan.failed is None,
        plan.refusal is None,
        settled(plan.targets, plan.next as int, reached, failed, tree, policy),
    ensures
        run(plan, tree, policy).1 == tree,
        run(plan, tree, policy).0.failed == failed,
    decreases reached - plan.next,
{
    if plan.next < reached {
        let target = plan.targets[plan.next as int];
        assert(tree.dirs.contains(target));
        assert(tree.occupied(target));
        let refusal = policy(tree, target)->0;
        let asked = plan.after_refused(refusal);
        let told = asked.after_inspected(tree.lookup(target));
        assert(run(plan, tree, policy) == run(asked, tree, policy));
        assert(run(asked, tree, policy) == run(told, tree, policy));
        lemma_rerun_repeats(told, reached, failed, tree, policy);
    } else if failed is Some {
        let target = plan.targets[plan.next as int];
        let refusal = policy(tree, target)->0;
        let asked = plan.after_refused(refusal);
        let told = asked.after_inspected(tree.lookup(target));
        assert(run(plan, tree, policy) == run(asked, tree, policy));
        assert(run(asked, tree, policy) == run(told, tree, policy));
        assert(told.finished());
    }
}

/// Creating a directory with its parents is idempotent: against any server
/// that never creates over what exists, a second run changes nothing in
/// the tree that the first run left, and ends as the first did.
pub proof fn lemma_mkdir_idempotent(path: Seq<char>, tree: RemoteTree, policy: Policy)
    requires
        respects_occupied(policy),
    ensures
        ({
            let plan = MkdirPlanView::start(mkdir_targets(path));
            let once = run_tree(plan, tree, policy);
            &&& run_tree(plan, once, policy) == once
            &&& run_result(plan, once, policy) == run_result(plan, tree, policy)
        }),
{
    let plan = MkdirPlanView::start(mkdir_targets(path));
    lemma_run_settles(plan, tree, policy);
    let first = run(plan, tree, policy);
    lemma_rerun_repeats(plan, first.0.next as int, first.0.failed, first.1, policy);
}

/// A run that succeeded leaves every directory of the plan in the tree.
pub proof fn lemma_mkdir_success_creates(path: Seq<char>, tree: RemoteTree, policy: Policy, i: int)
    requires
        respects_occupied(policy),
        run_result(MkdirPlanView::start(mkdir_targets(path)), tree, policy) is None,
        0 <= i < mkdir_targets(path).len(),
    ensures
        run_tree(MkdirPlanView::start(mkdir_targets(path)), tree, policy).dirs.contains(
            mkdir_targets(path)[i],
        ),
{
    lemma_run_settles(MkdirPlanView::start(mkdir_targets(path)), tree, policy);
}

/// What a plan asks of the caller next.
#[derive(Debug, Clone, PartialEq, Eq)]
pub enum MkdirAction {
    /// Ask the server to create this directory, with `DIRECTORY_MODE`.
    Create(String),
    /// Ask the server what is at this path.
    Inspect(String),
    /// The directory and its parents exist.
    Succeed,
    /// Give up with this error.
    Fail(SftpError),
}

impl MkdirAction {
    /// The action as plain values.
    pub open spec fn as_view(self) -> MkdirActionView {
        match self {
            MkdirAction::Create(p) => MkdirActionView::Create(p@),
            MkdirAction::Inspect(p) => MkdirActionView::Inspect(p@),
            MkdirAction::Succeed => MkdirActionView::Succeed,
            MkdirAction::Fail(e) => MkdirActionView::Fail(e.detail()),
        }
    }
}

/// The plan for creating one directory with its parents. The caller asks
/// for the action, performs it, and tells the plan the server's answer,
/// until the action is `Succeed` or `Fail`.
#[derive(Debug, Clone)]
pub struct MkdirPlan {
    targets: Vec<String>,
    next: usize,
    refusal: Option<String>,
    failed: Option<String>,
}

impl View for MkdirPlan {
    type V = MkdirPlanView;

    closed spec fn view(&self) -> MkdirPlanView {
        MkdirPlanView {
            targets: Seq::new(self.targets@.len(), |i: int| self.targets@[i]@),
            next: self.next as nat,
            refusal: match self.refusal {
                Some(r) => Some(r@),
                None => None,
            },
            failed: match self.failed {
                Some(d) => Some(d@),
                None => None,
            },
        }
    }
}

impl MkdirPlan {
    /// The plan never counts more directories than it has.
    pub closed spec fn wf(&self) -> bool {
        self.next <= self.targets@.len()
    }

    /// The plan for `path`, before anything was asked of the server.
    pub fn new(path: &str) -> (plan: MkdirPlan)
        ensures
            plan.wf(),
            plan@ == MkdirPlanView::start(mkdir_targets(path@)),
    {
        let targets = mkdir_target_list(path);
        let plan = MkdirPlan { targets, next: 0, refusal: None, failed: None };
        assert(plan@.targets =~= mkdir_targets(path@));
        plan
    }

    /// What to do next.
    pub fn action(&self) -> (action: MkdirAction)
        requires
            self.wf(),
        ensures
            action.as_view() == self@.action(),
            action matches MkdirAction::Fail(e) ==> e is CreateDirFailed,
    {
        match &self.failed {
            Some(detail) => MkdirAction::Fail(SftpError::CreateDirFailed(detail.clone())),
            None => {
                if self.next >= self.targets.len() {
                    MkdirAction::Succeed
                } else if self.refusal.is_some() {
                    MkdirAction::Inspect(self.targets[self.next].clone())
                } else {
                    MkdirAction::Create(self.targets[self.next].clone())
                }
            },
        }
    }

    /// The server created the directory asked for.
    pub fn created(&mut self)
        requires
            old(self).wf(),
        ensures
            final(self).wf(),
            final(self)@ == old(self)@.after_created(),
    {
        if self.failed.is_none() && self.next < self.targets.len() && self.refusal.is_none() {
            self.next = self.next + 1;
        }
    }

    /// The server refused to create the directory asked for.
    pub fn refused(&mut self, refusal: &str)
        requires
            old(self).wf(),
        ensures
            final(self).wf(),
            final(self)@ == old(self)@.after_refused(refusal@),
    {
        if self.failed.is_none() && self.next < self.targets.len() && self.refusal.is_none() {
            self.refusal = Some(String::from_str(refusal));
        }
    }

    /// The server said what is at the path asked about: a directory
    /// (`Some(true)`), something else (`Some(false)`), or nothing it can
    /// tell of (`None`).
    pub fn inspected(&mut self, found: Option<bool>)
        requires
            old(self).wf(),
        ensures
            final(self).wf(),
            final(self)@ == old(self)@.after_inspected(found),
    {
        if self.failed.is_none() && self.next < self.targets.len() && self.refusal.is_some() {
            match found {
                Some(true) => {
                    self.next = self.next + 1;
                    self.refusal = None;
                },
                Some(false) => {
                    let detail = self.targets[self.next].clone().concat(
                        ": Path exists but is not a directory",
                    );
                    self.failed = Some(detail);
                },
                None => {
                    let refusal = self.refusal.clone().unwrap();
                    let detail = self.targets[self.next].clone().concat(": ").concat(
                        refusal.as_str(),
                    );
                    self.failed = Some(detail);
                },
            }
        }
    }
}

} // verus!
