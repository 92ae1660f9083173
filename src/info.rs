//! `info`: report, for each store, its mirror directory, its ref in the main
//! repository and its ref on the remote. Only reads; a check that cannot be
//! made is reported as unknown.
use crate::listing::{
    add_listed, add_name, add_names, in_local_listing, in_remote_listing, is_name_list,
    log_entry, log_entry_of, short_hash, short_hash_of, CommitInfo,
};
use crate::protocol::{
    git_here, git_in, printed_of, ran, ran_ok, root_fault, stdout_of, Action, ActionView, Event,
    EventView, Fault, Outcome,
};
use crate::store::{check_store_name, is_store_name, mirror_dir_of, ref_name_of, resolve, trunk_root_of};
use crate::text::{lines, same_text, split_lines, views};
use vstd::prelude::*;

verus! {

/// Options of `info`.
pub struct InfoArgs {
    /// Report every store that the remote has, instead of the local ones.
    pub all: bool,
}

/// Whether the mirror has changes that are not committed.
#[derive(PartialEq, Eq, Structural, Clone, Copy, Debug)]
pub enum WorkStatus {
    /// Nothing to commit.
    Clean,
    /// This many paths have changes.
    Changes(usize),
    /// The status could not be had.
    Unknown,
}

/// What the remote has of the store's ref.
pub enum RemoteState {
    /// The remote could not be asked.
    Unknown,
    /// The remote has no such ref.
    Absent,
    /// The remote has the ref; its abbreviated hash, when it was listed.
    Present(Option<String>),
}

/// What `info` found out about one store.
pub struct StoreReport {
    pub name: String,
    pub mirror_exists: bool,
    pub mirror_is_repo: bool,
    pub mirror_commit: Option<CommitInfo>,
    pub mirror_status: Option<WorkStatus>,
    pub ref_exists: bool,
    pub ref_commit: Option<CommitInfo>,
    pub remote: RemoteState,
}

/// `RemoteState` as the contracts see it.
pub ghost enum RemoteView {
    Unknown,
    Absent,
    Present(Option<Seq<char>>),
}

/// `StoreReport` as the contracts see it.
pub ghost struct StoreReportView {
    pub name: Seq<char>,
    pub mirror_exists: bool,
    pub mirror_is_repo: bool,
    pub mirror_commit: Option<(Seq<char>, Option<i64>)>,
    pub mirror_status: Option<WorkStatus>,
    pub ref_exists: bool,
    pub ref_commit: Option<(Seq<char>, Option<i64>)>,
    pub remote: RemoteView,
}

/// `CommitInfo` as the contracts see it: its hash and time.
pub open spec fn commit_view(c: Option<CommitInfo>) -> Option<(Seq<char>, Option<i64>)> {
    match c {
        Some(c) => Some((c.hash@, c.seconds)),
        None => None,
    }
}

/// `RemoteState` as the contracts see it.
pub open spec fn remote_view(r: RemoteState) -> RemoteView {
    match r {
        RemoteState::Unknown => RemoteView::Unknown,
        RemoteState::Absent => RemoteView::Absent,
        RemoteState::Present(h) => RemoteView::Present(
            match h {
                Some(h) => Some(h@),
                None => None,
            },
        ),
    }
}

impl View for StoreReport {
    type V = StoreReportView;

    open spec fn view(&self) -> StoreReportView {
        StoreReportView {
            name: self.name@,
            mirror_exists: self.mirror_exists,
            mirror_is_repo: self.mirror_is_repo,
            mirror_commit: commit_view(self.mirror_commit),
            mirror_status: self.mirror_status,
            ref_exists: self.ref_exists,
            ref_commit: commit_view(self.ref_commit),
            remote: remote_view(self.remote),
        }
    }
}

/// Where a run of `info` stands: what it waits for.
#[derive(PartialEq, Eq, Structural, Clone, Copy, Debug)]
pub enum InfoPhase {
    /// Waiting for the repository root.
    Toplevel,
    /// Waiting for the remote's list of store refs.
    ListRemote,
    /// Waiting for the list of mirror directories.
    ListLocal,
    /// Waiting for the main repository's list of store refs.
    ListRefs,
    /// Waiting to learn whether the mirror directory exists.
    MirrorCheck,
    /// Waiting to learn whether the mirror is a repository.
    RepoCheck,
    /// Waiting for the mirror's last commit.
    MirrorLog,
    /// Waiting for the mirror's status.
    MirrorStatus,
    /// Waiting to learn whether the ref exists locally.
    RefCheck,
    /// Waiting for the ref's last commit.
    RefLog,
    /// Waiting for the remote's listing of the ref.
    RemoteCheck,
    /// Waiting for the report to be shown.
    Shown,
    /// Finished.
    Over,
}

/// A run of `info`.
pub struct Info {
    pub all: bool,
    pub remote: String,
    pub store: String,
    pub root: String,
    pub names: Vec<String>,
    pub index: usize,
    pub report: StoreReport,
    pub phase: InfoPhase,
}

/// A run of `info` as the contracts see it.
pub ghost struct InfoView {
    pub all: bool,
    pub remote: Seq<char>,
    pub store: Seq<char>,
    pub root: Seq<char>,
    pub names: Seq<Seq<char>>,
    pub index: int,
    pub report: StoreReportView,
    pub phase: InfoPhase,
}

impl View for Info {
    type V = InfoView;

    open spec fn view(&self) -> InfoView {
        InfoView {
            all: self.all,
            remote: self.remote@,
            store: self.store@,
            root: self.root@,
            names: views(self.names@),
            index: self.index as int,
            report: self.report@,
            phase: self.phase,
        }
    }
}

/// A report on `name` with nothing found out yet.
pub open spec fn fresh_report(name: Seq<char>) -> StoreReportView {
    StoreReportView {
        name,
        mirror_exists: false,
        mirror_is_repo: false,
        mirror_commit: None,
        mirror_status: None,
        ref_exists: false,
        ref_commit: None,
        remote: RemoteView::Unknown,
    }
}

/// The arguments that show the last commit of `rev`: its abbreviated hash
/// and its time in seconds, on two lines.
pub open spec fn log_args(rev: Seq<char>) -> Seq<Seq<char>> {
    seq!["log"@, "-1"@, "--pretty=format:%h%n%at"@, rev]
}

/// While the main repository's refs are listed, the names found so far
/// are an ordered list.
pub open spec fn info_wf(m: InfoView) -> bool {
    m.phase == InfoPhase::ListRefs ==> is_name_list(m.names)
}

/// The first step of `info`: ask for the repository root.
pub open spec fn info_start(all: bool, remote: Seq<char>, store: Seq<char>) -> (InfoView, ActionView) {
    (
        InfoView {
            all,
            remote,
            store,
            root: Seq::empty(),
            names: Seq::empty(),
            index: 0,
            report: fresh_report(Seq::empty()),
            phase: InfoPhase::Toplevel,
        },
        ActionView::Git { dir: None, args: seq!["rev-parse"@, "--show-toplevel"@] },
    )
}

/// Starting on the store at `i`, or finishing when there is none.
pub open spec fn begin(m: InfoView, i: int) -> (InfoView, ActionView) {
    if 0 <= i < m.names.len() {
        (
            InfoView { index: i, report: fresh_report(m.names[i]), phase: InfoPhase::MirrorCheck, ..m },
            ActionView::Exists(mirror_dir_of(m.root, m.names[i])),
        )
    } else {
        (InfoView { phase: InfoPhase::Over, ..m }, ActionView::Finish(Outcome::Done))
    }
}

/// Going on to the store's local ref.
pub open spec fn ref_check(m: InfoView) -> (InfoView, ActionView) {
    (
        InfoView { phase: InfoPhase::RefCheck, ..m },
        ActionView::Git {
            dir: Some(m.root),
            args: seq!["rev-parse"@, "--verify"@, ref_name_of(m.report.name)],
        },
    )
}

/// Going on to the remote's listing of the store's ref.
pub open spec fn remote_check(m: InfoView) -> (InfoView, ActionView) {
    (
        InfoView { phase: InfoPhase::RemoteCheck, ..m },
        ActionView::Git {
            dir: Some(m.root),
            args: seq!["ls-remote"@, m.remote, ref_name_of(m.report.name)],
        },
    )
}

/// The commit that a log command showed, when it ran successfully.
pub open spec fn log_of(e: EventView) -> Option<(Seq<char>, Option<i64>)> {
    if ran_ok(e) {
        log_entry_of(stdout_of(e))
    } else {
        None
    }
}

/// The mirror's status from `status --porcelain`: one line per changed path.
pub open spec fn status_of(e: EventView) -> WorkStatus {
    if !ran_ok(e) {
        WorkStatus::Unknown
    } else if stdout_of(e).len() == 0 {
        WorkStatus::Clean
    } else {
        WorkStatus::Changes(lines(stdout_of(e)).len() as usize)
    }
}

/// What the remote has of the ref, from `ls-remote`.
pub open spec fn remote_of(e: EventView) -> RemoteView {
    if !ran(e) {
        RemoteView::Unknown
    } else if ran_ok(e) && stdout_of(e).len() > 0 {
        RemoteView::Present(short_hash_of(stdout_of(e)))
    } else {
        RemoteView::Absent
    }
}

/// The step of `info` after the event `e`, outside the listing phases.
pub open spec fn info_next(m: InfoView, e: EventView) -> (InfoView, ActionView) {
    let r = m.report;
    let mirror = mirror_dir_of(m.root, r.name);
    match m.phase {
        InfoPhase::Toplevel => match printed_of(e) {
            Some(root) => if m.all {
                (
                    InfoView { root, phase: InfoPhase::ListRemote, ..m },
                    ActionView::Git {
                        dir: None,
                        args: seq!["ls-remote"@, "--refs"@, m.remote, "refs/trunk/*"@],
                    },
                )
            } else if m.store != "main"@ {
                if is_store_name(m.store) {
                    begin(InfoView { root, names: seq![m.store], ..m }, 0)
                } else {
                    (
                        InfoView { root, phase: InfoPhase::Over, ..m },
                        ActionView::Finish(Outcome::Failed(Fault::InvalidStoreName)),
                    )
                }
            } else {
                (
                    InfoView { root, phase: InfoPhase::ListLocal, ..m },
                    ActionView::ListDirs(trunk_root_of(root)),
                )
            },
            None => (
                InfoView { phase: InfoPhase::Over, ..m },
                ActionView::Finish(Outcome::Failed(root_fault(e))),
            ),
        },
        InfoPhase::MirrorCheck => if e == EventView::Yes {
            (
                InfoView {
                    report: StoreReportView { mirror_exists: true, ..r },
                    phase: InfoPhase::RepoCheck,
                    ..m
                },
                ActionView::Exists(mirror + "/.git"@),
            )
        } else {
            ref_check(m)
        },
        InfoPhase::RepoCheck => if e == EventView::Yes {
            (
                InfoView {
                    report: StoreReportView { mirror_is_repo: true, ..r },
                    phase: InfoPhase::MirrorLog,
                    ..m
                },
                ActionView::Git { dir: Some(mirror), args: log_args("HEAD"@) },
            )
        } else {
            ref_check(m)
        },
        InfoPhase::MirrorLog => (
            InfoView {
                report: StoreReportView { mirror_commit: log_of(e), ..r },
                phase: InfoPhase::MirrorStatus,
                ..m
            },
            ActionView::Git { dir: Some(mirror), args: seq!["status"@, "--porcelain"@] },
        ),
        InfoPhase::MirrorStatus => ref_check(
            InfoView { report: StoreReportView { mirror_status: Some(status_of(e)), ..r }, ..m },
        ),
        InfoPhase::RefCheck => if ran_ok(e) {
            (
                InfoView {
                    report: StoreReportView { ref_exists: true, ..r },
                    phase: InfoPhase::RefLog,
                    ..m
                },
                ActionView::Git { dir: Some(m.root), args: log_args(ref_name_of(r.name)) },
            )
        } else {
            remote_check(m)
        },
        InfoPhase::RefLog => remote_check(
            InfoView { report: StoreReportView { ref_commit: log_of(e), ..r }, ..m },
        ),
        InfoPhase::RemoteCheck => {
            let shown = StoreReportView { remote: remote_of(e), ..r };
            (
                InfoView { report: shown, phase: InfoPhase::Shown, ..m },
                ActionView::Show(shown),
            )
        },
        InfoPhase::Shown => begin(m, m.index + 1),
        _ => (InfoView { phase: InfoPhase::Over, ..m }, ActionView::Finish(Outcome::Done)),
    }
}

/// The step of `info` after the event `e`: in the listing phases, the
/// store names are the ones found, in order and each once.
pub open spec fn info_step(m: InfoView, e: EventView, n: InfoView, a: ActionView) -> bool {
    match m.phase {
        InfoPhase::ListRemote => {
            let found = ran_ok(e) && exists|x: Seq<char>| in_remote_listing(stdout_of(e), x);
            if found {
                &&& is_name_list(n.names)
                &&& forall|x: Seq<char>| #[trigger] n.names.contains(x) <==> in_remote_listing(stdout_of(e), x)
                &&& (n, a) == begin(InfoView { names: n.names, ..m }, 0)
            } else {
                (n, a) == (InfoView { phase: InfoPhase::Over, ..m }, ActionView::Finish(Outcome::NothingFound))
            }
        },
        InfoPhase::ListLocal => {
            &&& is_name_list(n.names)
            &&& forall|x: Seq<char>| #[trigger] n.names.contains(x) <==> (e matches EventView::Names(ns) && ns.contains(x))
            &&& (n, a) == (
                InfoView { names: n.names, phase: InfoPhase::ListRefs, ..m },
                ActionView::Git {
                    dir: Some(m.root),
                    args: seq!["for-each-ref"@, "--format=%(refname:short)"@, "refs/trunk/"@],
                },
            )
        },
        InfoPhase::ListRefs => {
            &&& is_name_list(n.names)
            &&& forall|x: Seq<char>| #[trigger] n.names.contains(x) <==> (m.names.contains(x)
                || (ran_ok(e) && in_local_listing(stdout_of(e), x)) || x == "main"@)
            &&& (n, a) == begin(InfoView { names: n.names, ..m }, 0)
        },
        _ => (n, a) == info_next(m, e),
    }
}

/// Once the remote was asked about a store's ref, `info` shows the report
/// gathered so far with what the remote's listing said; a listing that could
/// not be had shows as unknown, never as absent.
pub proof fn lemma_info_reaches_remote(m: InfoView, e: EventView)
    requires
        m.phase == InfoPhase::RemoteCheck,
    ensures
        info_next(m, e).1 == ActionView::Show(StoreReportView { remote: remote_of(e), ..m.report }),
        !ran(e) ==> remote_of(e) == RemoteView::Unknown,
{
}

fn fresh_report_for(name: &str) -> (r: StoreReport)
    ensures
        r@ == fresh_report(name@),
{
    StoreReport {
        name: String::from_str(name),
        mirror_exists: false,
        mirror_is_repo: false,
        mirror_commit: None,
        mirror_status: None,
        ref_exists: false,
        ref_commit: None,
        remote: RemoteState::Unknown,
    }
}

fn log_for(e: &Event) -> (r: Option<CommitInfo>)
    ensures
        commit_view(r) == log_of(e@),
{
    if e.ran_ok() {
        log_entry(e.stdout())
    } else {
        None
    }
}

fn status_for(e: &Event) -> (r: WorkStatus)
    ensures
        r == status_of(e@),
{
    if !e.ran_ok() {
        WorkStatus::Unknown
    } else if e.stdout().unicode_len() == 0 {
        WorkStatus::Clean
    } else {
        let ls = split_lines(e.stdout());
        proof {
            assert(views(ls@).len() == ls@.len());
        }
        WorkStatus::Changes(ls.len())
    }
}

fn remote_for(e: &Event) -> (r: RemoteState)
    ensures
        remote_view(r) == remote_of(e@),
{
    if !e.ran() {
        RemoteState::Unknown
    } else if e.ran_ok() && e.stdout().unicode_len() > 0 {
        RemoteState::Present(short_hash(e.stdout()))
    } else {
        RemoteState::Absent
    }
}

impl Info {
    /// Starts `info` for `store` (every local store when it is `main`, every
    /// remote store with `all`), asking `remote` about refs.
    pub fn start(args: &InfoArgs, remote: &str, store: &str) -> (r: (Info, Action))
        ensures
            (r.0@, r.1@) == info_start(args.all, remote@, store@),
            info_wf(r.0@),
    {
        let m = Info {
            all: args.all,
            remote: String::from_str(remote),
            store: String::from_str(store),
            root: String::new(),
            names: Vec::new(),
            index: 0,
            report: fresh_report_for(""),
            phase: InfoPhase::Toplevel,
        };
        proof {
            reveal_strlit("");
            assert(""@ =~= Seq::<char>::empty());
            assert(views(m.names@) =~= Seq::<Seq<char>>::empty());
        }
        let a = git_here(&["rev-parse", "--show-toplevel"]);
        proof {
            assert(a@->args =~= seq!["rev-parse"@, "--show-toplevel"@]);
        }
        (m, a)
    }

    fn begin(&mut self, i: usize) -> (a: Action)
        ensures
            (final(self)@, a@) == begin(old(self)@, i as int),
    {
        if i < self.names.len() {
            self.index = i;
            self.report = fresh_report_for(self.names[i].as_str());
            self.phase = InfoPhase::MirrorCheck;
            Action::Exists(resolve(self.root.as_str(), self.names[i].as_str()).mirror_dir)
        } else {
            self.phase = InfoPhase::Over;
            Action::Finish(Outcome::Done)
        }
    }

    fn ref_check(&mut self) -> (a: Action)
        ensures
            (final(self)@, a@) == ref_check(old(self)@),
    {
        self.phase = InfoPhase::RefCheck;
        let name = resolve("", self.report.name.as_str()).ref_name;
        let a = git_in(self.root.as_str(), &["rev-parse", "--verify", name.as_str()]);
        proof {
            assert(a@->args =~= seq!["rev-parse"@, "--verify"@, ref_name_of(self.report.name@)]);
        }
        a
    }

    fn remote_check(&mut self) -> (a: Action)
        ensures
            (final(self)@, a@) == remote_check(old(self)@),
    {
        self.phase = InfoPhase::RemoteCheck;
        let name = resolve("", self.report.name.as_str()).ref_name;
        let a = git_in(self.root.as_str(), &["ls-remote", self.remote.as_str(), name.as_str()]);
        proof {
            assert(a@->args =~= seq!["ls-remote"@, self.remote@, ref_name_of(self.report.name@)]);
        }
        a
    }

    fn copy_report(&self) -> (r: StoreReport)
        ensures
            r@ == self.report@,
    {
        let c = |x: &Option<CommitInfo>| -> (y: Option<CommitInfo>)
            ensures
                commit_view(y) == commit_view(*x),
            {
                match x {
                    Some(c) => Some(CommitInfo { hash: c.hash.clone(), seconds: c.seconds }),
                    None => None,
                }
            };
        StoreReport {
            name: self.report.name.clone(),
            mirror_exists: self.report.mirror_exists,
            mirror_is_repo: self.report.mirror_is_repo,
            mirror_commit: c(&self.report.mirror_commit),
            mirror_status: self.report.mirror_status,
            ref_exists: self.report.ref_exists,
            ref_commit: c(&self.report.ref_commit),
            remote: match &self.report.remote {
                RemoteState::Unknown => RemoteState::Unknown,
                RemoteState::Absent => RemoteState::Absent,
                RemoteState::Present(h) => RemoteState::Present(
                    match h {
                        Some(h) => Some(h.clone()),
                        None => None,
                    },
                ),
            },
        }
    }

    /// Takes the result of the last action and gives the next one.
    pub fn next(&mut self, e: Event) -> (a: Action)
        requires
            old(self)@.phase != InfoPhase::Over,
            info_wf(old(self)@),
        ensures
            info_step(old(self)@, e@, final(self)@, a@),
            info_wf(final(self)@),
    {
        let ghost m = self@;
        match self.phase {
            InfoPhase::Toplevel => match e.printed() {
                Some(root) => {
                    self.root = root;
                    if self.all {
                        self.phase = InfoPhase::ListRemote;
                        let a = git_here(
                            &["ls-remote", "--refs", self.remote.as_str(), "refs/trunk/*"],
                        );
                        proof {
                            assert(a@->args =~= seq!["ls-remote"@, "--refs"@, m.remote, "refs/trunk/*"@]);
                        }
                        a
                    } else if !same_text(self.store.as_str(), "main") {
                        if check_store_name(self.store.as_str()) {
                            self.names = vec![self.store.clone()];
                            proof {
                                assert(views(self.names@) =~= seq![m.store]);
                            }
                            self.begin(0)
                        } else {
                            self.phase = InfoPhase::Over;
                            Action::Finish(Outcome::Failed(Fault::InvalidStoreName))
                        }
                    } else {
                        self.phase = InfoPhase::ListLocal;
                        Action::ListDirs(resolve(self.root.as_str(), "").trunk_root)
                    }
                },
                None => {
                    self.phase = InfoPhase::Over;
                    Action::Finish(Outcome::Failed(e.root_fault()))
                },
            },
            InfoPhase::ListRemote => {
                if e.ran_ok() {
                    let mut names: Vec<String> = Vec::new();
                    proof {
                        assert(views(names@) =~= Seq::<Seq<char>>::empty());
                    }
                    add_listed(&mut names, e.stdout(), true);
                    if names.len() > 0 {
                        proof {
                            let first = views(names@)[0];
                            assert(views(names@).contains(first));
                            assert(in_remote_listing(stdout_of(e@), first));
                        }
                        self.names = names;
                        return self.begin(0);
                    }
                    proof {
                        assert forall|x: Seq<char>| !in_remote_listing(stdout_of(e@), x) by {
                            assert(!views(names@).contains(x));
                        }
                    }
                }
                self.phase = InfoPhase::Over;
                Action::Finish(Outcome::NothingFound)
            },
            InfoPhase::ListLocal => {
                let mut names: Vec<String> = Vec::new();
                proof {
                    assert(views(names@) =~= Seq::<Seq<char>>::empty());
                }
                if let Event::Names(ns) = &e {
                    add_names(&mut names, ns);
                }
                self.names = names;
                self.phase = InfoPhase::ListRefs;
                let a = git_in(
                    self.root.as_str(),
                    &["for-each-ref", "--format=%(refname:short)", "refs/trunk/"],
                );
                proof {
                    assert(a@->args =~= seq!["for-each-ref"@, "--format=%(refname:short)"@, "refs/trunk/"@]);
                }
                a
            },
            InfoPhase::ListRefs => {
                if e.ran_ok() {
                    add_listed(&mut self.names, e.stdout(), false);
                }
                add_name(&mut self.names, String::from_str("main"));
                self.begin(0)
            },
            InfoPhase::MirrorCheck => {
                if let Event::Yes = e {
                    self.report.mirror_exists = true;
                    self.phase = InfoPhase::RepoCheck;
                    let mut p = resolve(self.root.as_str(), self.report.name.as_str()).mirror_dir;
                    p.append("/.git");
                    Action::Exists(p)
                } else {
                    self.ref_check()
                }
            },
            InfoPhase::RepoCheck => {
                if let Event::Yes = e {
                    self.report.mirror_is_repo = true;
                    self.phase = InfoPhase::MirrorLog;
                    let dir = resolve(self.root.as_str(), self.report.name.as_str()).mirror_dir;
                    let a = git_in(dir.as_str(), &["log", "-1", "--pretty=format:%h%n%at", "HEAD"]);
                    proof {
                        assert(a@->args =~= log_args("HEAD"@));
                    }
                    a
                } else {
                    self.ref_check()
                }
            },
            InfoPhase::MirrorLog => {
                self.report.mirror_commit = log_for(&e);
                self.phase = InfoPhase::MirrorStatus;
                let dir = resolve(self.root.as_str(), self.report.name.as_str()).mirror_dir;
                let a = git_in(dir.as_str(), &["status", "--porcelain"]);
                proof {
                    assert(a@->args =~= seq!["status"@, "--porcelain"@]);
                }
                a
            },
            InfoPhase::MirrorStatus => {
                self.report.mirror_status = Some(status_for(&e));
                self.ref_check()
            },
            InfoPhase::RefCheck => {
                if e.ran_ok() {
                    self.report.ref_exists = true;
                    self.phase = InfoPhase::RefLog;
                    let name = resolve("", self.report.name.as_str()).ref_name;
                    let a = git_in(
                        self.root.as_str(),
                        &["log", "-1", "--pretty=format:%h%n%at", name.as_str()],
                    );
                    proof {
                        assert(a@->args =~= log_args(ref_name_of(m.report.name)));
                    }
                    a
                } else {
                    self.remote_check()
                }
            },
            InfoPhase::RefLog => {
                self.report.ref_commit = log_for(&e);
                self.remote_check()
            },
            InfoPhase::RemoteCheck => {
                self.report.remote = remote_for(&e);
                self.phase = InfoPhase::Shown;
                Action::Show(self.copy_report())
            },
            InfoPhase::Shown => {
                if self.index < self.names.len() {
                    self.begin(self.index + 1)
                } else {
                    self.phase = InfoPhase::Over;
                    Action::Finish(Outcome::Done)
                }
            },
            InfoPhase::Over => Action::Finish(Outcome::Done),
        }
    }
}

} // verus!
