//! `delete`: remove a store everywhere: its mirror directory, its ref in the
//! main repository and its ref on the remote. Asks first, always.
use crate::protocol::{
    fail, git_fault, git_here, git_in, printed_of, ran, ran_ok, root_fault, stdout_of, Action,
    ActionView, Event, EventView, Fault, Outcome, Question, Removal,
};
use crate::store::{
    check_store_name, is_store_name, mirror_dir_of, ref_name_of, resolve, trunk_root_of,
};
use vstd::prelude::*;

verus! {

/// Options of `delete`.
pub struct DeleteArgs {}

/// Where a run of `delete` stands: what it waits for.
#[derive(PartialEq, Eq, Structural, Clone, Copy, Debug)]
pub enum DeletePhase {
    /// Waiting for the user to confirm.
    Confirm,
    /// Waiting to learn whether the current directory is in a working tree.
    Inside,
    /// Waiting for the repository root.
    Toplevel,
    /// Waiting to learn whether the mirror directory exists.
    MirrorCheck,
    /// Waiting for the mirror directory to be removed.
    Remove,
    /// Waiting to learn whether the mirror root exists.
    RootCheck,
    /// Waiting to learn whether the mirror root is empty.
    RootEmpty,
    /// Waiting for the empty mirror root to be removed.
    RootRemove,
    /// Waiting to learn whether the ref exists locally.
    LocalRef,
    /// Waiting for the local ref to be deleted.
    DropLocal,
    /// Waiting to learn whether the ref exists on the remote.
    RemoteRef,
    /// Waiting for the remote ref to be deleted.
    DropRemote,
    /// Finished.
    Over,
}

/// A run of `delete`.
pub struct Delete {
    pub remote: String,
    pub store: String,
    pub root: String,
    pub mirror: Removal,
    pub local_ref: Removal,
    pub phase: DeletePhase,
}

/// A run of `delete` as the contracts see it.
pub ghost struct DeleteView {
    pub remote: Seq<char>,
    pub store: Seq<char>,
    pub root: Seq<char>,
    pub mirror: Removal,
    pub local_ref: Removal,
    pub phase: DeletePhase,
}

impl View for Delete {
    type V = DeleteView;

    open spec fn view(&self) -> DeleteView {
        DeleteView {
            remote: self.remote@,
            store: self.store@,
            root: self.root@,
            mirror: self.mirror,
            local_ref: self.local_ref,
            phase: self.phase,
        }
    }
}

/// The refspec that deletes the store's ref on a remote.
pub open spec fn delete_spec(store: Seq<char>) -> Seq<char> {
    ":"@ + ref_name_of(store)
}

/// The first step of `delete`: ask the user.
pub open spec fn delete_start(remote: Seq<char>, store: Seq<char>) -> (DeleteView, ActionView) {
    let m = DeleteView {
        remote,
        store,
        root: Seq::empty(),
        mirror: Removal::Absent,
        local_ref: Removal::Absent,
        phase: DeletePhase::Confirm,
    };
    if !is_store_name(store) {
        (
            DeleteView { phase: DeletePhase::Over, ..m },
            ActionView::Finish(Outcome::Failed(Fault::InvalidStoreName)),
        )
    } else {
        (m, ActionView::Ask(Question::DeleteStore))
    }
}

/// Moving on to the given phase with the given action.
pub open spec fn delete_to(m: DeleteView, p: DeletePhase, a: ActionView) -> (DeleteView, ActionView) {
    (DeleteView { phase: p, ..m }, a)
}

/// Stopping with the given outcome.
pub open spec fn delete_stop(m: DeleteView, o: Outcome) -> (DeleteView, ActionView) {
    (DeleteView { phase: DeletePhase::Over, ..m }, ActionView::Finish(o))
}

/// Going on to the local ref once the mirror side is settled.
pub open spec fn check_local_ref(m: DeleteView) -> (DeleteView, ActionView) {
    delete_to(
        m,
        DeletePhase::LocalRef,
        ActionView::Git { dir: Some(m.root), args: seq!["rev-parse"@, "--verify"@, ref_name_of(m.store)] },
    )
}

/// Going on to the remote ref once the local ref is settled.
pub open spec fn check_remote_ref(m: DeleteView) -> (DeleteView, ActionView) {
    delete_to(
        m,
        DeletePhase::RemoteRef,
        ActionView::Git { dir: Some(m.root), args: seq!["ls-remote"@, m.remote, ref_name_of(m.store)] },
    )
}

/// What became of a location whose removal ran: removed on success, kept
/// otherwise.
pub open spec fn removal_by(e: EventView) -> Removal {
    if ran_ok(e) {
        Removal::Removed
    } else {
        Removal::Kept
    }
}

/// The final report.
pub open spec fn deleted(m: DeleteView, remote_ref: Removal) -> Outcome {
    Outcome::Deleted { mirror: m.mirror, local_ref: m.local_ref, remote_ref }
}

/// The step of `delete` after the event `e`.
pub open spec fn delete_next(m: DeleteView, e: EventView) -> (DeleteView, ActionView) {
    let check_root = ActionView::Exists(trunk_root_of(m.root));
    match m.phase {
        DeletePhase::Confirm => if e == EventView::Yes {
            delete_to(
                m,
                DeletePhase::Inside,
                ActionView::Git { dir: None, args: seq!["rev-parse"@, "--is-inside-work-tree"@] },
            )
        } else {
            delete_stop(m, Outcome::Declined)
        },
        DeletePhase::Inside => if ran_ok(e) {
            delete_to(
                m,
                DeletePhase::Toplevel,
                ActionView::Git { dir: None, args: seq!["rev-parse"@, "--show-toplevel"@] },
            )
        } else {
            delete_stop(m, Outcome::Failed(root_fault(e)))
        },
        DeletePhase::Toplevel => match printed_of(e) {
            Some(root) => (
                DeleteView { root, phase: DeletePhase::MirrorCheck, ..m },
                ActionView::Exists(mirror_dir_of(root, m.store)),
            ),
            None => delete_stop(m, Outcome::Failed(root_fault(e))),
        },
        DeletePhase::MirrorCheck => if e == EventView::Yes {
            delete_to(m, DeletePhase::Remove, ActionView::RemoveTree(mirror_dir_of(m.root, m.store)))
        } else {
            (DeleteView { mirror: Removal::Absent, phase: DeletePhase::RootCheck, ..m }, check_root)
        },
        DeletePhase::Remove => (
            DeleteView {
                mirror: if e == EventView::Done {
                    Removal::Removed
                } else {
                    Removal::Kept
                },
                phase: DeletePhase::RootCheck,
                ..m
            },
            check_root,
        ),
        DeletePhase::RootCheck => if e == EventView::Yes {
            delete_to(m, DeletePhase::RootEmpty, ActionView::IsEmptyDir(trunk_root_of(m.root)))
        } else {
            check_local_ref(m)
        },
        DeletePhase::RootEmpty => if e == EventView::Yes {
            delete_to(m, DeletePhase::RootRemove, ActionView::RemoveDir(trunk_root_of(m.root)))
        } else {
            check_local_ref(m)
        },
        DeletePhase::RootRemove => check_local_ref(m),
        DeletePhase::LocalRef => if ran_ok(e) {
            delete_to(
                m,
                DeletePhase::DropLocal,
                ActionView::Git { dir: Some(m.root), args: seq!["update-ref"@, "-d"@, ref_name_of(m.store)] },
            )
        } else {
            check_remote_ref(DeleteView { local_ref: Removal::Absent, ..m })
        },
        DeletePhase::DropLocal => if ran(e) {
            check_remote_ref(DeleteView { local_ref: removal_by(e), ..m })
        } else {
            delete_stop(m, Outcome::Failed(git_fault(e)))
        },
        DeletePhase::RemoteRef => if !ran(e) {
            delete_stop(m, Outcome::Failed(git_fault(e)))
        } else if stdout_of(e).len() > 0 {
            delete_to(
                m,
                DeletePhase::DropRemote,
                ActionView::Git { dir: Some(m.root), args: seq!["push"@, m.remote, delete_spec(m.store)] },
            )
        } else {
            delete_stop(m, deleted(m, Removal::Absent))
        },
        DeletePhase::DropRemote => if ran(e) {
            delete_stop(m, deleted(m, removal_by(e)))
        } else {
            delete_stop(m, Outcome::Failed(git_fault(e)))
        },
        DeletePhase::Over => delete_stop(m, Outcome::Declined),
    }
}

/// Declining `delete` touches nothing: the question is the first action,
/// and any answer but yes ends the command cleanly (exit status zero).
pub proof fn lemma_delete_declined(remote: Seq<char>, store: Seq<char>, answer: EventView)
    requires
        is_store_name(store),
        answer != EventView::Yes,
    ensures
        delete_start(remote, store).1 == ActionView::Ask(Question::DeleteStore),
        delete_next(delete_start(remote, store).0, answer).1 == ActionView::Finish(
            Outcome::Declined,
        ),
{
}

/// `delete` of a store that has no mirror directory (and no mirror root), no
/// local ref and no remote ref only looks: it removes nothing, deletes no ref,
/// pushes nothing, and reports each location as having had nothing to remove.
pub proof fn lemma_delete_nothing_there(
    remote: Seq<char>,
    store: Seq<char>,
    inside: EventView,
    toplevel: EventView,
    local: EventView,
    listed: EventView,
)
    requires
        is_store_name(store),
        ran_ok(inside),
        printed_of(toplevel) is Some,
        ran(local) && !ran_ok(local),
        ran(listed) && stdout_of(listed).len() == 0,
    ensures
        ({
            let root = printed_of(toplevel)->0;
            let (m0, a0) = delete_start(remote, store);
            let (m1, a1) = delete_next(m0, EventView::Yes);
            let (m2, a2) = delete_next(m1, inside);
            let (m3, a3) = delete_next(m2, toplevel);
            let (m4, a4) = delete_next(m3, EventView::No);
            let (m5, a5) = delete_next(m4, EventView::No);
            let (m6, a6) = delete_next(m5, local);
            let (m7, a7) = delete_next(m6, listed);
            &&& a0 == ActionView::Ask(Question::DeleteStore)
            &&& a1 == (ActionView::Git { dir: None, args: seq!["rev-parse"@, "--is-inside-work-tree"@] })
            &&& a2 == (ActionView::Git { dir: None, args: seq!["rev-parse"@, "--show-toplevel"@] })
            &&& a3 == ActionView::Exists(mirror_dir_of(root, store))
            &&& a4 == ActionView::Exists(trunk_root_of(root))
            &&& a5 == (ActionView::Git {
                dir: Some(root),
                args: seq!["rev-parse"@, "--verify"@, ref_name_of(store)],
            })
            &&& a6 == (ActionView::Git {
                dir: Some(root),
                args: seq!["ls-remote"@, remote, ref_name_of(store)],
            })
            &&& a7 == ActionView::Finish(
                Outcome::Deleted {
                    mirror: Removal::Absent,
                    local_ref: Removal::Absent,
                    remote_ref: Removal::Absent,
                },
            )
        }),
{
}

/// `:refs/trunk/<store>`.
fn delete_refspec(store: &str) -> (r: String)
    ensures
        r@ == delete_spec(store@),
{
    let mut r = String::from_str(":");
    r.append(resolve("", store).ref_name.as_str());
    r
}

impl Delete {
    /// Starts `delete` of `store` here and on `remote`.
    pub fn start(_args: &DeleteArgs, remote: &str, store: &str) -> (r: (Delete, Action))
        ensures
            (r.0@, r.1@) == delete_start(remote@, store@),
    {
        let mut m = Delete {
            remote: String::from_str(remote),
            store: String::from_str(store),
            root: String::new(),
            mirror: Removal::Absent,
            local_ref: Removal::Absent,
            phase: DeletePhase::Confirm,
        };
        if !check_store_name(store) {
            m.phase = DeletePhase::Over;
            return (m, fail(Fault::InvalidStoreName));
        }
        (m, Action::Ask(Question::DeleteStore))
    }

    fn go(&mut self, p: DeletePhase, a: Action) -> (r: Action)
        ensures
            (final(self)@, r@) == delete_to(old(self)@, p, a@),
    {
        self.phase = p;
        a
    }

    fn stop(&mut self, o: Outcome) -> (r: Action)
        ensures
            (final(self)@, r@) == delete_stop(old(self)@, o),
    {
        self.phase = DeletePhase::Over;
        Action::Finish(o)
    }

    fn check_local_ref(&mut self) -> (r: Action)
        ensures
            (final(self)@, r@) == check_local_ref(old(self)@),
    {
        let name = resolve("", self.store.as_str()).ref_name;
        let a = git_in(self.root.as_str(), &["rev-parse", "--verify", name.as_str()]);
        proof {
            assert(a@->args =~= seq!["rev-parse"@, "--verify"@, ref_name_of(self.store@)]);
        }
        self.go(DeletePhase::LocalRef, a)
    }

    fn check_remote_ref(&mut self) -> (r: Action)
        ensures
            (final(self)@, r@) == check_remote_ref(old(self)@),
    {
        let name = resolve("", self.store.as_str()).ref_name;
        let a = git_in(self.root.as_str(), &["ls-remote", self.remote.as_str(), name.as_str()]);
        proof {
            assert(a@->args =~= seq!["ls-remote"@, self.remote@, ref_name_of(self.store@)]);
        }
        self.go(DeletePhase::RemoteRef, a)
    }

    fn removal_by(e: &Event) -> (r: Removal)
        ensures
            r == removal_by(e@),
    {
        if e.ran_ok() {
            Removal::Removed
        } else {
            Removal::Kept
        }
    }

    /// Takes the result of the last action and gives the next one.
    pub fn next(&mut self, e: Event) -> (a: Action)
        requires
            old(self)@.phase != DeletePhase::Over,
        ensures
            (final(self)@, a@) == delete_next(old(self)@, e@),
    {
        match self.phase {
            DeletePhase::Confirm => {
                if let Event::Yes = e {
                    let a = git_here(&["rev-parse", "--is-inside-work-tree"]);
                    proof {
                        assert(a@->args =~= seq!["rev-parse"@, "--is-inside-work-tree"@]);
                    }
                    self.go(DeletePhase::Inside, a)
                } else {
                    self.stop(Outcome::Declined)
                }
            },
            DeletePhase::Inside => {
                if e.ran_ok() {
                    let a = git_here(&["rev-parse", "--show-toplevel"]);
                    proof {
                        assert(a@->args =~= seq!["rev-parse"@, "--show-toplevel"@]);
                    }
                    self.go(DeletePhase::Toplevel, a)
                } else {
                    self.stop(Outcome::Failed(e.root_fault()))
                }
            },
            DeletePhase::Toplevel => match e.printed() {
                Some(root) => {
                    self.root = root;
                    let a = Action::Exists(resolve(self.root.as_str(), self.store.as_str()).mirror_dir);
                    self.go(DeletePhase::MirrorCheck, a)
                },
                None => self.stop(Outcome::Failed(e.root_fault())),
            },
            DeletePhase::MirrorCheck => {
                let paths = resolve(self.root.as_str(), self.store.as_str());
                if let Event::Yes = e {
                    self.go(DeletePhase::Remove, Action::RemoveTree(paths.mirror_dir))
                } else {
                    self.mirror = Removal::Absent;
                    self.go(DeletePhase::RootCheck, Action::Exists(paths.trunk_root))
                }
            },
            DeletePhase::Remove => {
                self.mirror = if let Event::Done = e {
                    Removal::Removed
                } else {
                    Removal::Kept
                };
                let paths = resolve(self.root.as_str(), self.store.as_str());
                self.go(DeletePhase::RootCheck, Action::Exists(paths.trunk_root))
            },
            DeletePhase::RootCheck => {
                if let Event::Yes = e {
                    let paths = resolve(self.root.as_str(), self.store.as_str());
                    self.go(DeletePhase::RootEmpty, Action::IsEmptyDir(paths.trunk_root))
                } else {
                    self.check_local_ref()
                }
            },
            DeletePhase::RootEmpty => {
                if let Event::Yes = e {
                    let paths = resolve(self.root.as_str(), self.store.as_str());
                    self.go(DeletePhase::RootRemove, Action::RemoveDir(paths.trunk_root))
                } else {
                    self.check_local_ref()
                }
            },
            DeletePhase::RootRemove => self.check_local_ref(),
            DeletePhase::LocalRef => {
                if e.ran_ok() {
                    let name = resolve("", self.store.as_str()).ref_name;
                    let a = git_in(self.root.as_str(), &["update-ref", "-d", name.as_str()]);
                    proof {
                        assert(a@->args =~= seq!["update-ref"@, "-d"@, ref_name_of(self.store@)]);
                    }
                    self.go(DeletePhase::DropLocal, a)
                } else {
                    self.local_ref = Removal::Absent;
                    self.check_remote_ref()
                }
            },
            DeletePhase::DropLocal => {
                if e.ran() {
                    self.local_ref = Self::removal_by(&e);
                    self.check_remote_ref()
                } else {
                    self.stop(Outcome::Failed(e.git_fault()))
                }
            },
            DeletePhase::RemoteRef => {
                if !e.ran() {
                    self.stop(Outcome::Failed(e.git_fault()))
                } else if e.stdout().unicode_len() > 0 {
                    let spec = delete_refspec(self.store.as_str());
                    let a = git_in(self.root.as_str(), &["push", self.remote.as_str(), spec.as_str()]);
                    proof {
                        assert(a@->args =~= seq!["push"@, self.remote@, delete_spec(self.store@)]);
                    }
                    self.go(DeletePhase::DropRemote, a)
                } else {
                    let o = Outcome::Deleted {
                        mirror: self.mirror,
                        local_ref: self.local_ref,
                        remote_ref: Removal::Absent,
                    };
                    self.stop(o)
                }
            },
            DeletePhase::DropRemote => {
                if e.ran() {
                    let o = Outcome::Deleted {
                        mirror: self.mirror,
                        local_ref: self.local_ref,
                        remote_ref: Self::removal_by(&e),
                    };
                    self.stop(o)
                } else {
                    self.stop(Outcome::Failed(e.git_fault()))
                }
            },
            DeletePhase::Over => self.stop(Outcome::Declined),
        }
    }
}

} // verus!
