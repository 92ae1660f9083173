//! `commit`: record the mirror's changes in its own history, then point the
//! store's ref in the main repository at the mirror's `main` commit.
use crate::protocol::{
    fail, git_fault, git_in, git_here, printed_of, ran, ran_ok, root_fault, stdout_of, Action,
    ActionView, Event, EventView, Fault, Outcome, Question,
};
use crate::store::{check_store_name, is_store_name, mirror_dir_of, ref_name_of, resolve};
use vstd::prelude::*;

verus! {

/// Options of `commit`.
pub struct CommitArgs {
    /// Stage every change without asking.
    pub force: bool,
    /// The commit message; a default names the store.
    pub message: Option<String>,
}

/// Where a run of `commit` stands: what it waits for.
#[derive(PartialEq, Eq, Structural, Clone, Copy, Debug)]
pub enum CommitPhase {
    /// Waiting for the repository root.
    Toplevel,
    /// Waiting to learn whether the mirror directory exists.
    MirrorCheck,
    /// Waiting for the mirror's status.
    Status,
    /// Waiting for the user to allow staging.
    Confirm,
    /// Waiting for the changes to be staged.
    Stage,
    /// Waiting for the mirror's commit.
    Record,
    /// Waiting for the mirror's `main` commit hash.
    Head,
    /// Waiting for the fetch of that commit into the main repository.
    Fetch,
    /// Waiting for the ref update.
    UpdateRef,
    /// Waiting for the temporary branch to be deleted.
    Cleanup,
    /// Finished.
    Over,
}

/// A run of `commit`.
pub struct Commit {
    pub force: bool,
    pub message: String,
    pub store: String,
    pub root: String,
    pub hash: String,
    pub phase: CommitPhase,
}

/// A run of `commit` as the contracts see it.
pub ghost struct CommitView {
    pub force: bool,
    pub message: Seq<char>,
    pub store: Seq<char>,
    pub root: Seq<char>,
    pub hash: Seq<char>,
    pub phase: CommitPhase,
}

impl View for Commit {
    type V = CommitView;

    open spec fn view(&self) -> CommitView {
        CommitView {
            force: self.force,
            message: self.message@,
            store: self.store@,
            root: self.root@,
            hash: self.hash@,
            phase: self.phase,
        }
    }
}

/// The message of a commit for which none was given.
pub open spec fn default_message(store: Seq<char>) -> Seq<char> {
    "Commit trunk changes for store '"@ + store + "'"@
}

/// The temporary branch of the main repository that receives the commit.
pub open spec fn temp_branch(store: Seq<char>) -> Seq<char> {
    "trunk-temp-"@ + store
}

/// The refspec that fetches the mirror's `main` into the temporary branch.
pub open spec fn main_to_temp(store: Seq<char>) -> Seq<char> {
    "main:"@ + temp_branch(store)
}

/// The first step of `commit`: ask for the repository root.
pub open spec fn commit_start(force: bool, message: Option<Seq<char>>, store: Seq<char>) -> (
    CommitView,
    ActionView,
) {
    let m = CommitView {
        force,
        message: match message {
            Some(t) => t,
            None => default_message(store),
        },
        store,
        root: Seq::empty(),
        hash: Seq::empty(),
        phase: CommitPhase::Toplevel,
    };
    if !is_store_name(store) {
        (
            CommitView { phase: CommitPhase::Over, ..m },
            ActionView::Finish(Outcome::Failed(Fault::InvalidStoreName)),
        )
    } else {
        (m, ActionView::Git { dir: None, args: seq!["rev-parse"@, "--show-toplevel"@] })
    }
}

/// Run in the mirror directory.
pub open spec fn in_mirror(m: CommitView, args: Seq<Seq<char>>) -> ActionView {
    ActionView::Git { dir: Some(mirror_dir_of(m.root, m.store)), args }
}

/// Run at the repository root.
pub open spec fn at_root(m: CommitView, args: Seq<Seq<char>>) -> ActionView {
    ActionView::Git { dir: Some(m.root), args }
}

/// The step of `commit` after the event `e`.
pub open spec fn commit_next(m: CommitView, e: EventView) -> (CommitView, ActionView) {
    let over = CommitView { phase: CommitPhase::Over, ..m };
    let read_head = (
        CommitView { phase: CommitPhase::Head, ..m },
        in_mirror(m, seq!["rev-parse"@, "main"@]),
    );
    let stage = (
        CommitView { phase: CommitPhase::Stage, ..m },
        in_mirror(m, seq!["add"@, "-A"@]),
    );
    match m.phase {
        CommitPhase::Toplevel => match printed_of(e) {
            Some(root) => (
                CommitView { root, phase: CommitPhase::MirrorCheck, ..m },
                ActionView::Exists(mirror_dir_of(root, m.store)),
            ),
            None => (over, ActionView::Finish(Outcome::Failed(root_fault(e)))),
        },
        CommitPhase::MirrorCheck => if e == EventView::Yes {
            (
                CommitView { phase: CommitPhase::Status, ..m },
                in_mirror(m, seq!["status"@, "--porcelain"@]),
            )
        } else {
            (over, ActionView::Finish(Outcome::Failed(Fault::MirrorMissing)))
        },
        CommitPhase::Status => if !ran(e) {
            (over, ActionView::Finish(Outcome::Failed(git_fault(e))))
        } else if stdout_of(e).len() == 0 {
            read_head
        } else if m.force {
            stage
        } else {
            (
                CommitView { phase: CommitPhase::Confirm, ..m },
                ActionView::Ask(Question::StageAll),
            )
        },
        CommitPhase::Confirm => if e == EventView::Yes {
            stage
        } else {
            (over, ActionView::Finish(Outcome::Declined))
        },
        CommitPhase::Stage => if ran_ok(e) {
            (
                CommitView { phase: CommitPhase::Record, ..m },
                in_mirror(m, seq!["commit"@, "-m"@, m.message]),
            )
        } else {
            (over, ActionView::Finish(Outcome::Failed(git_fault(e))))
        },
        CommitPhase::Record => if ran(e) {
            read_head
        } else {
            (over, ActionView::Finish(Outcome::Failed(git_fault(e))))
        },
        CommitPhase::Head => match printed_of(e) {
            Some(hash) => (
                CommitView { hash, phase: CommitPhase::Fetch, ..m },
                at_root(
                    m,
                    seq!["fetch"@, mirror_dir_of(m.root, m.store), main_to_temp(m.store)],
                ),
            ),
            None => if ran(e) {
                (over, ActionView::Finish(Outcome::Failed(Fault::NoCommit)))
            } else {
                (over, ActionView::Finish(Outcome::Failed(git_fault(e))))
            },
        },
        CommitPhase::Fetch => if ran_ok(e) {
            (
                CommitView { phase: CommitPhase::UpdateRef, ..m },
                at_root(m, seq!["update-ref"@, ref_name_of(m.store), m.hash]),
            )
        } else {
            (over, ActionView::Finish(Outcome::Failed(git_fault(e))))
        },
        CommitPhase::UpdateRef => if ran_ok(e) {
            (
                CommitView { phase: CommitPhase::Cleanup, ..m },
                at_root(m, seq!["branch"@, "-D"@, temp_branch(m.store)]),
            )
        } else {
            (over, ActionView::Finish(Outcome::Failed(git_fault(e))))
        },
        CommitPhase::Cleanup => (over, ActionView::Finish(Outcome::Done)),
        CommitPhase::Over => (over, ActionView::Finish(Outcome::Done)),
    }
}

/// With a clean mirror, `commit` stages and commits nothing: it reads the
/// mirror's `main` commit, fetches it, and points the store's ref at exactly
/// that commit, then ends with success (exit status zero) whatever becomes
/// of the temporary branch.
pub proof fn lemma_commit_clean_mirror(
    m: CommitView,
    status: EventView,
    head: EventView,
    fetched: EventView,
    updated: EventView,
    cleaned: EventView,
)
    requires
        m.phase == CommitPhase::Status,
        ran(status),
        stdout_of(status).len() == 0,
        printed_of(head) is Some,
        ran_ok(fetched),
        ran_ok(updated),
    ensures
        ({
            let (m1, a1) = commit_next(m, status);
            let (m2, a2) = commit_next(m1, head);
            let (m3, a3) = commit_next(m2, fetched);
            let (m4, a4) = commit_next(m3, updated);
            let (m5, a5) = commit_next(m4, cleaned);
            &&& a1 == in_mirror(m, seq!["rev-parse"@, "main"@])
            &&& a2 == at_root(
                m,
                seq!["fetch"@, mirror_dir_of(m.root, m.store), main_to_temp(m.store)],
            )
            &&& a3 == at_root(m, seq!["update-ref"@, ref_name_of(m.store), printed_of(head)->0])
            &&& a4 == at_root(m, seq!["branch"@, "-D"@, temp_branch(m.store)])
            &&& a5 == ActionView::Finish(Outcome::Done)
        }),
{
}

/// With `force`, `commit` asks nothing.
pub proof fn lemma_commit_force_asks_nothing(m: CommitView, e: EventView)
    requires
        m.force,
    ensures
        !(commit_next(m, e).1 is Ask),
        commit_next(m, e).0.force,
{
}

/// `main:trunk-temp-<store>`.
fn main_to_temp_refspec(store: &str) -> (r: String)
    ensures
        r@ == main_to_temp(store@),
{
    let mut r = String::from_str("main:");
    r.append(temp_branch_name(store).as_str());
    r
}

/// `trunk-temp-<store>`.
fn temp_branch_name(store: &str) -> (r: String)
    ensures
        r@ == temp_branch(store@),
{
    let mut r = String::from_str("trunk-temp-");
    r.append(store);
    r
}

impl Commit {
    /// Starts `commit` of `store`.
    pub fn start(args: &CommitArgs, store: &str) -> (r: (Commit, Action))
        ensures
            (r.0@, r.1@) == commit_start(
                args.force,
                match args.message {
                    Some(t) => Some(t@),
                    None => None,
                },
                store@,
            ),
    {
        let message = match &args.message {
            Some(t) => t.clone(),
            None => {
                let mut t = String::from_str("Commit trunk changes for store '");
                t.append(store);
                t.append("'");
                t
            },
        };
        let mut m = Commit {
            force: args.force,
            message,
            store: String::from_str(store),
            root: String::new(),
            hash: String::new(),
            phase: CommitPhase::Toplevel,
        };
        if !check_store_name(store) {
            m.phase = CommitPhase::Over;
            return (m, fail(Fault::InvalidStoreName));
        }
        let a = git_here(&["rev-parse", "--show-toplevel"]);
        proof {
            assert(a@->args =~= seq!["rev-parse"@, "--show-toplevel"@]);
        }
        (m, a)
    }

    fn mirror(&self) -> (r: String)
        ensures
            r@ == mirror_dir_of(self.root@, self.store@),
    {
        resolve(self.root.as_str(), self.store.as_str()).mirror_dir
    }

    /// Takes the result of the last action and gives the next one.
    pub fn next(&mut self, e: Event) -> (a: Action)
        requires
            old(self)@.phase != CommitPhase::Over,
        ensures
            (final(self)@, a@) == commit_next(old(self)@, e@),
    {
        let ghost m = self@;
        match self.phase {
            CommitPhase::Toplevel => match e.printed() {
                Some(root) => {
                    self.root = root;
                    self.phase = CommitPhase::MirrorCheck;
                    Action::Exists(self.mirror())
                },
                None => {
                    self.phase = CommitPhase::Over;
                    fail(e.root_fault())
                },
            },
            CommitPhase::MirrorCheck => {
                if let Event::Yes = e {
                    self.phase = CommitPhase::Status;
                    let dir = self.mirror();
                    let a = git_in(dir.as_str(), &["status", "--porcelain"]);
                    proof {
                        assert(a@->args =~= seq!["status"@, "--porcelain"@]);
                    }
                    a
                } else {
                    self.phase = CommitPhase::Over;
                    fail(Fault::MirrorMissing)
                }
            },
            CommitPhase::Status => {
                if !e.ran() {
                    self.phase = CommitPhase::Over;
                    fail(e.git_fault())
                } else if e.stdout().unicode_len() == 0 {
                    self.read_head()
                } else if self.force {
                    self.stage()
                } else {
                    self.phase = CommitPhase::Confirm;
                    Action::Ask(Question::StageAll)
                }
            },
            CommitPhase::Confirm => {
                if let Event::Yes = e {
                    self.stage()
                } else {
                    self.phase = CommitPhase::Over;
                    Action::Finish(Outcome::Declined)
                }
            },
            CommitPhase::Stage => {
                if e.ran_ok() {
                    self.phase = CommitPhase::Record;
                    let dir = self.mirror();
                    let a = git_in(dir.as_str(), &["commit", "-m", self.message.as_str()]);
                    proof {
                        assert(a@->args =~= seq!["commit"@, "-m"@, self.message@]);
                    }
                    a
                } else {
                    self.phase = CommitPhase::Over;
                    fail(e.git_fault())
                }
            },
            CommitPhase::Record => {
                if e.ran() {
                    self.read_head()
                } else {
                    self.phase = CommitPhase::Over;
                    fail(e.git_fault())
                }
            },
            CommitPhase::Head => match e.printed() {
                Some(hash) => {
                    self.hash = hash;
                    self.phase = CommitPhase::Fetch;
                    let dir = self.mirror();
                    let spec = main_to_temp_refspec(self.store.as_str());
                    let a = git_in(self.root.as_str(), &["fetch", dir.as_str(), spec.as_str()]);
                    proof {
                        assert(a@->args =~= seq![
                            "fetch"@,
                            mirror_dir_of(m.root, m.store),
                            main_to_temp(m.store),
                        ]);
                    }
                    a
                },
                None => {
                    self.phase = CommitPhase::Over;
                    if e.ran() {
                        fail(Fault::NoCommit)
                    } else {
                        fail(e.git_fault())
                    }
                },
            },
            CommitPhase::Fetch => {
                if e.ran_ok() {
                    self.phase = CommitPhase::UpdateRef;
                    let name = resolve(self.root.as_str(), self.store.as_str()).ref_name;
                    let a = git_in(
                        self.root.as_str(),
                        &["update-ref", name.as_str(), self.hash.as_str()],
                    );
                    proof {
                        assert(a@->args =~= seq!["update-ref"@, ref_name_of(m.store), m.hash]);
                    }
                    a
                } else {
                    self.phase = CommitPhase::Over;
                    fail(e.git_fault())
                }
            },
            CommitPhase::UpdateRef => {
                if e.ran_ok() {
                    self.phase = CommitPhase::Cleanup;
                    let branch = temp_branch_name(self.store.as_str());
                    let a = git_in(self.root.as_str(), &["branch", "-D", branch.as_str()]);
                    proof {
                        assert(a@->args =~= seq!["branch"@, "-D"@, temp_branch(m.store)]);
                    }
                    a
                } else {
                    self.phase = CommitPhase::Over;
                    fail(e.git_fault())
                }
            },
            CommitPhase::Cleanup | CommitPhase::Over => {
                self.phase = CommitPhase::Over;
                Action::Finish(Outcome::Done)
            },
        }
    }

    fn read_head(&mut self) -> (a: Action)
        ensures
            final(self)@ == (CommitView { phase: CommitPhase::Head, ..old(self)@ }),
            a@ == in_mirror(old(self)@, seq!["rev-parse"@, "main"@]),
    {
        self.phase = CommitPhase::Head;
        let dir = self.mirror();
        let a = git_in(dir.as_str(), &["rev-parse", "main"]);
        proof {
            assert(a@->args =~= seq!["rev-parse"@, "main"@]);
        }
        a
    }

    fn stage(&mut self) -> (a: Action)
        ensures
            final(self)@ == (CommitView { phase: CommitPhase::Stage, ..old(self)@ }),
            a@ == in_mirror(old(self)@, seq!["add"@, "-A"@]),
    {
        self.phase = CommitPhase::Stage;
        let dir = self.mirror();
        let a = git_in(dir.as_str(), &["add", "-A"]);
        proof {
            assert(a@->args =~= seq!["add"@, "-A"@]);
        }
        a
    }
}

} // verus!
