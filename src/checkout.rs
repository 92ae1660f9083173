//! `checkout`: fetch an existing store into a fresh mirror directory.
use crate::ignore::{ignore_file_update, ignore_file_update_for};
use crate::protocol::{
    fail, git_fault, git_here, git_in, printed_of, ran, ran_ok, root_fault, stdout_of, Action,
    ActionView, Event, EventView, Fault, Outcome, Question,
};
use crate::push::{same_ref, same_ref_spec};
use crate::store::{
    check_store_name, ignore_file, ignore_file_of, is_store_name, mirror_dir_of, ref_name_of,
    resolve,
};
use vstd::prelude::*;

verus! {

/// Options of `checkout`.
pub struct CheckoutArgs {
    /// Replace an existing mirror directory without asking.
    pub force: bool,
}

/// Where a run of `checkout` stands: what it waits for.
#[derive(PartialEq, Eq, Structural, Clone, Copy, Debug)]
pub enum CheckoutPhase {
    /// Waiting for the repository root.
    Toplevel,
    /// Waiting to learn whether the ref exists locally.
    LocalRef,
    /// Waiting to learn whether the ref exists on the remote.
    RemoteRef,
    /// Waiting for the fetch of the ref from the remote.
    Fetch,
    /// Waiting to learn whether the ref resolves locally after the fetch.
    Verify,
    /// Waiting for the ignore file's text.
    ReadIgnore,
    /// Waiting for the ignore file to be written.
    WriteIgnore,
    /// Waiting to learn whether the mirror directory exists.
    MirrorCheck,
    /// Waiting for the user to allow replacing the mirror.
    Confirm,
    /// Waiting for the old mirror to be removed.
    Remove,
    /// Waiting for the mirror directory to be created.
    MakeMirror,
    /// Waiting for the mirror repository to be initialized.
    Init,
    /// Waiting for the ref's commit to be fetched into the mirror.
    FetchInto,
    /// Waiting for the hash of the fetched commit.
    ReadTemp,
    /// Waiting for the hard reset to that commit.
    Reset,
    /// Waiting for `main` to point at that commit.
    SetMain,
    /// Waiting for `main` to be checked out.
    Switch,
    /// Waiting for the temporary ref to be deleted.
    Cleanup,
    /// Finished.
    Over,
}

/// A run of `checkout`.
pub struct Checkout {
    pub force: bool,
    pub remote: String,
    pub store: String,
    pub root: String,
    pub hash: String,
    pub phase: CheckoutPhase,
}

/// A run of `checkout` as the contracts see it.
pub ghost struct CheckoutView {
    pub force: bool,
    pub remote: Seq<char>,
    pub store: Seq<char>,
    pub root: Seq<char>,
    pub hash: Seq<char>,
    pub phase: CheckoutPhase,
}

impl View for Checkout {
    type V = CheckoutView;

    open spec fn view(&self) -> CheckoutView {
        CheckoutView {
            force: self.force,
            remote: self.remote@,
            store: self.store@,
            root: self.root@,
            hash: self.hash@,
            phase: self.phase,
        }
    }
}

/// The ref inside the mirror that receives the store's commit for a moment.
pub open spec fn temp_ref() -> Seq<char> {
    "refs/temp/trunk_store_data"@
}

/// The refspec that fetches the store's ref into the temporary ref.
pub open spec fn ref_to_temp(store: Seq<char>) -> Seq<char> {
    ref_name_of(store) + ":"@ + temp_ref()
}

/// The first step of `checkout`: ask for the repository root.
pub open spec fn checkout_start(force: bool, remote: Seq<char>, store: Seq<char>) -> (
    CheckoutView,
    ActionView,
) {
    let m = CheckoutView {
        force,
        remote,
        store,
        root: Seq::empty(),
        hash: Seq::empty(),
        phase: CheckoutPhase::Toplevel,
    };
    if !is_store_name(store) {
        (
            CheckoutView { phase: CheckoutPhase::Over, ..m },
            ActionView::Finish(Outcome::Failed(Fault::InvalidStoreName)),
        )
    } else {
        (m, ActionView::Git { dir: None, args: seq!["rev-parse"@, "--show-toplevel"@] })
    }
}

/// Run at the repository root.
pub open spec fn at_root(m: CheckoutView, args: Seq<Seq<char>>) -> ActionView {
    ActionView::Git { dir: Some(m.root), args }
}

/// Run in the mirror directory.
pub open spec fn in_mirror(m: CheckoutView, args: Seq<Seq<char>>) -> ActionView {
    ActionView::Git { dir: Some(mirror_dir_of(m.root, m.store)), args }
}

/// Moving on to the given phase with the given action.
pub open spec fn to(m: CheckoutView, p: CheckoutPhase, a: ActionView) -> (
    CheckoutView,
    ActionView,
) {
    (CheckoutView { phase: p, ..m }, a)
}

/// Stopping with the given outcome.
pub open spec fn stop(m: CheckoutView, o: Outcome) -> (CheckoutView, ActionView) {
    (CheckoutView { phase: CheckoutPhase::Over, ..m }, ActionView::Finish(o))
}

/// The step of `checkout` after the event `e`.
pub open spec fn checkout_next(m: CheckoutView, e: EventView) -> (CheckoutView, ActionView) {
    let failed = stop(m, Outcome::Failed(git_fault(e)));
    let fs_failed = stop(m, Outcome::Failed(Fault::FileOperationFailed));
    let mirror = mirror_dir_of(m.root, m.store);
    let read_ignore = to(m, CheckoutPhase::ReadIgnore, ActionView::ReadFile(ignore_file_of(m.root)));
    let check_mirror = to(m, CheckoutPhase::MirrorCheck, ActionView::Exists(mirror));
    let remove = to(m, CheckoutPhase::Remove, ActionView::RemoveTree(mirror));
    let make = to(m, CheckoutPhase::MakeMirror, ActionView::MakeDir(mirror));
    match m.phase {
        CheckoutPhase::Toplevel => match printed_of(e) {
            Some(root) => (
                CheckoutView { root, phase: CheckoutPhase::LocalRef, ..m },
                ActionView::Git {
                    dir: Some(root),
                    args: seq!["rev-parse"@, "--verify"@, ref_name_of(m.store)],
                },
            ),
            None => stop(m, Outcome::Failed(root_fault(e))),
        },
        CheckoutPhase::LocalRef => if ran_ok(e) {
            read_ignore
        } else {
            to(
                m,
                CheckoutPhase::RemoteRef,
                at_root(m, seq!["ls-remote"@, m.remote, ref_name_of(m.store)]),
            )
        },
        CheckoutPhase::RemoteRef => if ran_ok(e) && stdout_of(e).len() > 0 {
            to(m, CheckoutPhase::Fetch, at_root(m, seq!["fetch"@, m.remote, same_ref_spec(m.store)]))
        } else if ran(e) {
            stop(m, Outcome::Failed(Fault::RefNotOnRemote))
        } else {
            failed
        },
        CheckoutPhase::Fetch => if ran_ok(e) {
            to(
                m,
                CheckoutPhase::Verify,
                at_root(m, seq!["rev-parse"@, "--verify"@, ref_name_of(m.store)]),
            )
        } else {
            failed
        },
        CheckoutPhase::Verify => if ran_ok(e) {
            read_ignore
        } else {
            stop(m, Outcome::Failed(Fault::RefMissingAfterFetch))
        },
        CheckoutPhase::ReadIgnore => match ignore_file_update(e) {
            Some(Some(t)) => to(
                m,
                CheckoutPhase::WriteIgnore,
                ActionView::WriteFile { path: ignore_file_of(m.root), text: t },
            ),
            Some(None) => check_mirror,
            None => fs_failed,
        },
        CheckoutPhase::WriteIgnore => if e == EventView::Done {
            check_mirror
        } else {
            fs_failed
        },
        CheckoutPhase::MirrorCheck => if e == EventView::Yes {
            if m.force {
                remove
            } else {
                to(m, CheckoutPhase::Confirm, ActionView::Ask(Question::OverwriteMirror))
            }
        } else {
            make
        },
        CheckoutPhase::Confirm => if e == EventView::Yes {
            remove
        } else {
            stop(m, Outcome::Declined)
        },
        CheckoutPhase::Remove => if e == EventView::Done {
            make
        } else {
            fs_failed
        },
        CheckoutPhase::MakeMirror => if e == EventView::Done {
            to(m, CheckoutPhase::Init, in_mirror(m, seq!["init"@]))
        } else {
            fs_failed
        },
        CheckoutPhase::Init => if ran_ok(e) {
            to(
                m,
                CheckoutPhase::FetchInto,
                in_mirror(m, seq!["fetch"@, m.root, ref_to_temp(m.store)]),
            )
        } else {
            failed
        },
        CheckoutPhase::FetchInto => if ran_ok(e) {
            to(m, CheckoutPhase::ReadTemp, in_mirror(m, seq!["rev-parse"@, temp_ref()]))
        } else {
            failed
        },
        CheckoutPhase::ReadTemp => match printed_of(e) {
            Some(hash) => (
                CheckoutView { hash, phase: CheckoutPhase::Reset, ..m },
                in_mirror(m, seq!["reset"@, "--hard"@, hash]),
            ),
            None => failed,
        },
        CheckoutPhase::Reset => if ran_ok(e) {
            to(
                m,
                CheckoutPhase::SetMain,
                in_mirror(m, seq!["update-ref"@, "refs/heads/main"@, m.hash]),
            )
        } else {
            failed
        },
        CheckoutPhase::SetMain => if ran_ok(e) {
            to(m, CheckoutPhase::Switch, in_mirror(m, seq!["checkout"@, "main"@]))
        } else {
            failed
        },
        CheckoutPhase::Switch => if ran_ok(e) {
            to(m, CheckoutPhase::Cleanup, in_mirror(m, seq!["update-ref"@, "-d"@, temp_ref()]))
        } else {
            failed
        },
        CheckoutPhase::Cleanup => stop(m, Outcome::Done),
        CheckoutPhase::Over => stop(m, Outcome::Done),
    }
}

/// Once the store's commit is fetched into the fresh mirror, `checkout`
/// resets the mirror to exactly the commit that the fetched ref names, points
/// `main` at that same commit, checks `main` out, and ends with success
/// whatever becomes of the temporary ref.
pub proof fn lemma_checkout_lands_on_fetched_commit(
    m: CheckoutView,
    fetched: EventView,
    read: EventView,
    reset: EventView,
    set_main: EventView,
    switched: EventView,
    cleaned: EventView,
)
    requires
        m.phase == CheckoutPhase::FetchInto,
        ran_ok(fetched),
        printed_of(read) is Some,
        ran_ok(reset),
        ran_ok(set_main),
        ran_ok(switched),
    ensures
        ({
            let h = printed_of(read)->0;
            let (m1, a1) = checkout_next(m, fetched);
            let (m2, a2) = checkout_next(m1, read);
            let (m3, a3) = checkout_next(m2, reset);
            let (m4, a4) = checkout_next(m3, set_main);
            let (m5, a5) = checkout_next(m4, switched);
            let (m6, a6) = checkout_next(m5, cleaned);
            &&& a1 == in_mirror(m, seq!["rev-parse"@, temp_ref()])
            &&& a2 == in_mirror(m, seq!["reset"@, "--hard"@, h])
            &&& a3 == in_mirror(m, seq!["update-ref"@, "refs/heads/main"@, h])
            &&& a4 == in_mirror(m, seq!["checkout"@, "main"@])
            &&& a5 == in_mirror(m, seq!["update-ref"@, "-d"@, temp_ref()])
            &&& a6 == ActionView::Finish(Outcome::Done)
        }),
{
}

/// With `force`, `checkout` asks nothing: an existing mirror is replaced.
pub proof fn lemma_checkout_force_asks_nothing(m: CheckoutView, e: EventView)
    requires
        m.force,
    ensures
        !(checkout_next(m, e).1 is Ask),
        checkout_next(m, e).0.force,
{
}

/// `refs/trunk/<store>:refs/temp/trunk_store_data`.
fn ref_to_temp_refspec(store: &str) -> (r: String)
    ensures
        r@ == ref_to_temp(store@),
{
    let mut r = resolve("", store).ref_name;
    r.append(":");
    r.append("refs/temp/trunk_store_data");
    r
}

impl Checkout {
    /// Starts `checkout` of `store` from `remote`.
    pub fn start(args: &CheckoutArgs, remote: &str, store: &str) -> (r: (Checkout, Action))
        ensures
            (r.0@, r.1@) == checkout_start(args.force, remote@, store@),
    {
        let mut m = Checkout {
            force: args.force,
            remote: String::from_str(remote),
            store: String::from_str(store),
            root: String::new(),
            hash: String::new(),
            phase: CheckoutPhase::Toplevel,
        };
        if !check_store_name(store) {
            m.phase = CheckoutPhase::Over;
            return (m, fail(Fault::InvalidStoreName));
        }
        let a = git_here(&["rev-parse", "--show-toplevel"]);
        proof {
            assert(a@->args =~= seq!["rev-parse"@, "--show-toplevel"@]);
        }
        (m, a)
    }

    fn mirror(&self) -> (r: String)
        ensures
            r@ == mirror_dir_of(self.root@, self.store@),
    {
        resolve(self.root.as_str(), self.store.as_str()).mirror_dir
    }

    fn go(&mut self, p: CheckoutPhase, a: Action) -> (r: Action)
        ensures
            (final(self)@, r@) == to(old(self)@, p, a@),
    {
        self.phase = p;
        a
    }

    fn stop(&mut self, o: Outcome) -> (r: Action)
        ensures
            (final(self)@, r@) == stop(old(self)@, o),
    {
        self.phase = CheckoutPhase::Over;
        Action::Finish(o)
    }

    fn in_mirror(&self, ws: &[&str]) -> (r: Action)
        ensures
            r@ == in_mirror(self@, ws@.map_values(|w: &str| w@)),
    {
        let dir = self.mirror();
        git_in(dir.as_str(), ws)
    }

    /// Takes the result of the last action and gives the next one.
    pub fn next(&mut self, e: Event) -> (a: Action)
        requires
            old(self)@.phase != CheckoutPhase::Over,
        ensures
            (final(self)@, a@) == checkout_next(old(self)@, e@),
    {
        let ghost m = self@;
        let name = resolve("", self.store.as_str()).ref_name;
        match self.phase {
            CheckoutPhase::Toplevel => match e.printed() {
                Some(root) => {
                    self.root = root;
                    let a = git_in(self.root.as_str(), &["rev-parse", "--verify", name.as_str()]);
                    proof {
                        assert(a@->args =~= seq!["rev-parse"@, "--verify"@, ref_name_of(m.store)]);
                    }
                    self.go(CheckoutPhase::LocalRef, a)
                },
                None => self.stop(Outcome::Failed(e.root_fault())),
            },
            CheckoutPhase::LocalRef => {
                if e.ran_ok() {
                    let a = Action::ReadFile(ignore_file(self.root.as_str()));
                    self.go(CheckoutPhase::ReadIgnore, a)
                } else {
                    let a = git_in(
                        self.root.as_str(),
                        &["ls-remote", self.remote.as_str(), name.as_str()],
                    );
                    proof {
                        assert(a@->args =~= seq!["ls-remote"@, m.remote, ref_name_of(m.store)]);
                    }
                    self.go(CheckoutPhase::RemoteRef, a)
                }
            },
            CheckoutPhase::RemoteRef => {
                if e.ran_ok() && e.stdout().unicode_len() > 0 {
                    let spec = same_ref(self.store.as_str());
                    let a = git_in(
                        self.root.as_str(),
                        &["fetch", self.remote.as_str(), spec.as_str()],
                    );
                    proof {
                        assert(a@->args =~= seq!["fetch"@, m.remote, same_ref_spec(m.store)]);
                    }
                    self.go(CheckoutPhase::Fetch, a)
                } else if e.ran() {
                    self.stop(Outcome::Failed(Fault::RefNotOnRemote))
                } else {
                    self.stop(Outcome::Failed(e.git_fault()))
                }
            },
            CheckoutPhase::Fetch => {
                if e.ran_ok() {
                    let a = git_in(self.root.as_str(), &["rev-parse", "--verify", name.as_str()]);
                    proof {
                        assert(a@->args =~= seq!["rev-parse"@, "--verify"@, ref_name_of(m.store)]);
                    }
                    self.go(CheckoutPhase::Verify, a)
                } else {
                    self.stop(Outcome::Failed(e.git_fault()))
                }
            },
            CheckoutPhase::Verify => {
                if e.ran_ok() {
                    let a = Action::ReadFile(ignore_file(self.root.as_str()));
                    self.go(CheckoutPhase::ReadIgnore, a)
                } else {
                    self.stop(Outcome::Failed(Fault::RefMissingAfterFetch))
                }
            },
            CheckoutPhase::ReadIgnore => match ignore_file_update_for(&e) {
                Some(Some(text)) => {
                    let a = Action::WriteFile { path: ignore_file(self.root.as_str()), text };
                    self.go(CheckoutPhase::WriteIgnore, a)
                },
                Some(None) => {
                    let a = Action::Exists(self.mirror());
                    self.go(CheckoutPhase::MirrorCheck, a)
                },
                None => self.stop(Outcome::Failed(Fault::FileOperationFailed)),
            },
            CheckoutPhase::WriteIgnore => {
                if let Event::Done = e {
                    let a = Action::Exists(self.mirror());
                    self.go(CheckoutPhase::MirrorCheck, a)
                } else {
                    self.stop(Outcome::Failed(Fault::FileOperationFailed))
                }
            },
            CheckoutPhase::MirrorCheck => {
                if let Event::Yes = e {
                    if self.force {
                        let a = Action::RemoveTree(self.mirror());
                        self.go(CheckoutPhase::Remove, a)
                    } else {
                        self.go(CheckoutPhase::Confirm, Action::Ask(Question::OverwriteMirror))
                    }
                } else {
                    let a = Action::MakeDir(self.mirror());
                    self.go(CheckoutPhase::MakeMirror, a)
                }
            },
            CheckoutPhase::Confirm => {
                if let Event::Yes = e {
                    let a = Action::RemoveTree(self.mirror());
                    self.go(CheckoutPhase::Remove, a)
                } else {
                    self.stop(Outcome::Declined)
                }
            },
            CheckoutPhase::Remove => {
                if let Event::Done = e {
                    let a = Action::MakeDir(self.mirror());
                    self.go(CheckoutPhase::MakeMirror, a)
                } else {
                    self.stop(Outcome::Failed(Fault::FileOperationFailed))
                }
            },
            CheckoutPhase::MakeMirror => {
                if let Event::Done = e {
                    let a = self.in_mirror(&["init"]);
                    proof {
                        assert(a@->args =~= seq!["init"@]);
                    }
                    self.go(CheckoutPhase::Init, a)
                } else {
                    self.stop(Outcome::Failed(Fault::FileOperationFailed))
                }
            },
            CheckoutPhase::Init => {
                if e.ran_ok() {
                    let spec = ref_to_temp_refspec(self.store.as_str());
                    let a = self.in_mirror(&["fetch", self.root.as_str(), spec.as_str()]);
                    proof {
                        assert(a@->args =~= seq!["fetch"@, m.root, ref_to_temp(m.store)]);
                    }
                    self.go(CheckoutPhase::FetchInto, a)
                } else {
                    self.stop(Outcome::Failed(e.git_fault()))
                }
            },
            CheckoutPhase::FetchInto => {
                if e.ran_ok() {
                    let a = self.in_mirror(&["rev-parse", "refs/temp/trunk_store_data"]);
                    proof {
                        assert(a@->args =~= seq!["rev-parse"@, temp_ref()]);
                    }
                    self.go(CheckoutPhase::ReadTemp, a)
                } else {
                    self.stop(Outcome::Failed(e.git_fault()))
                }
            },
            CheckoutPhase::ReadTemp => match e.printed() {
                Some(hash) => {
                    self.hash = hash;
                    let a = self.in_mirror(&["reset", "--hard", self.hash.as_str()]);
                    proof {
                        assert(a@->args =~= seq!["reset"@, "--hard"@, self.hash@]);
                    }
                    self.go(CheckoutPhase::Reset, a)
                },
                None => self.stop(Outcome::Failed(e.git_fault())),
            },
            CheckoutPhase::Reset => {
                if e.ran_ok() {
                    let a = self.in_mirror(&["update-ref", "refs/heads/main", self.hash.as_str()]);
                    proof {
                        assert(a@->args =~= seq!["update-ref"@, "refs/heads/main"@, m.hash]);
                    }
                    self.go(CheckoutPhase::SetMain, a)
                } else {
                    self.stop(Outcome::Failed(e.git_fault()))
                }
            },
            CheckoutPhase::SetMain => {
                if e.ran_ok() {
                    let a = self.in_mirror(&["checkout", "main"]);
                    proof {
                        assert(a@->args =~= seq!["checkout"@, "main"@]);
                    }
                    self.go(CheckoutPhase::Switch, a)
                } else {
                    self.stop(Outcome::Failed(e.git_fault()))
                }
            },
            CheckoutPhase::Switch => {
                if e.ran_ok() {
                    let a = self.in_mirror(&["update-ref", "-d", "refs/temp/trunk_store_data"]);
                    proof {
                        assert(a@->args =~= seq!["update-ref"@, "-d"@, temp_ref()]);
                    }
                    self.go(CheckoutPhase::Cleanup, a)
                } else {
                    self.stop(Outcome::Failed(e.git_fault()))
                }
            },
            CheckoutPhase::Cleanup | CheckoutPhase::Over => self.stop(Outcome::Done),
        }
    }
}

} // verus!
