//! `stegano`: remove only the local traces of a store: its mirror directory,
//! and, when it was the last one, the mirror root and the ignore entry.
//! No ref, local or remote, is touched.
use crate::ignore::{ignore_file_removal, ignore_file_removal_for};
use crate::protocol::{
    fail, git_here, printed_of, ran_ok, root_fault, Action, ActionView, Event, EventView, Fault,
    Outcome,
};
use crate::store::{
    check_store_name, ignore_file, ignore_file_of, is_store_name, mirror_dir_of, resolve,
    trunk_root_of,
};
use vstd::prelude::*;

verus! {

/// Options of `stegano`.
pub struct SteganoArgs {}

/// Where a run of `stegano` stands: what it waits for.
#[derive(PartialEq, Eq, Structural, Clone, Copy, Debug)]
pub enum SteganoPhase {
    /// Waiting to learn whether the current directory is in a working tree.
    Inside,
    /// Waiting for the repository root.
    Toplevel,
    /// Waiting to learn whether the mirror directory exists.
    MirrorCheck,
    /// Waiting for the mirror directory to be removed.
    Remove,
    /// Waiting to learn whether the mirror root exists.
    RootCheck,
    /// Waiting to learn whether the mirror root is empty.
    RootEmpty,
    /// Waiting for the empty mirror root to be removed.
    RootRemove,
    /// Waiting for the ignore file's text.
    ReadIgnore,
    /// Waiting for the ignore file to be written.
    WriteIgnore,
    /// Finished.
    Over,
}

/// A run of `stegano`.
pub struct Stegano {
    pub store: String,
    pub root: String,
    pub phase: SteganoPhase,
}

/// A run of `stegano` as the contracts see it.
pub ghost struct SteganoView {
    pub store: Seq<char>,
    pub root: Seq<char>,
    pub phase: SteganoPhase,
}

impl View for Stegano {
    type V = SteganoView;

    open spec fn view(&self) -> SteganoView {
        SteganoView { store: self.store@, root: self.root@, phase: self.phase }
    }
}

/// The first step of `stegano`: check that it runs inside a working tree.
pub open spec fn stegano_start(store: Seq<char>) -> (SteganoView, ActionView) {
    let m = SteganoView { store, root: Seq::empty(), phase: SteganoPhase::Inside };
    if !is_store_name(store) {
        (
            SteganoView { phase: SteganoPhase::Over, ..m },
            ActionView::Finish(Outcome::Failed(Fault::InvalidStoreName)),
        )
    } else {
        (m, ActionView::Git { dir: None, args: seq!["rev-parse"@, "--is-inside-work-tree"@] })
    }
}

/// Moving on to the given phase with the given action.
pub open spec fn stegano_to(m: SteganoView, p: SteganoPhase, a: ActionView) -> (
    SteganoView,
    ActionView,
) {
    (SteganoView { phase: p, ..m }, a)
}

/// Stopping with the given outcome.
pub open spec fn stegano_stop(m: SteganoView, o: Outcome) -> (SteganoView, ActionView) {
    (SteganoView { phase: SteganoPhase::Over, ..m }, ActionView::Finish(o))
}

/// The step of `stegano` after the event `e`.
pub open spec fn stegano_next(m: SteganoView, e: EventView) -> (SteganoView, ActionView) {
    let done = stegano_stop(m, Outcome::Done);
    let check_root = stegano_to(m, SteganoPhase::RootCheck, ActionView::Exists(trunk_root_of(m.root)));
    let read_ignore = stegano_to(m, SteganoPhase::ReadIgnore, ActionView::ReadFile(ignore_file_of(m.root)));
    match m.phase {
        SteganoPhase::Inside => if ran_ok(e) {
            stegano_to(
                m,
                SteganoPhase::Toplevel,
                ActionView::Git { dir: None, args: seq!["rev-parse"@, "--show-toplevel"@] },
            )
        } else {
            stegano_stop(m, Outcome::Failed(root_fault(e)))
        },
        SteganoPhase::Toplevel => match printed_of(e) {
            Some(root) => (
                SteganoView { root, phase: SteganoPhase::MirrorCheck, ..m },
                ActionView::Exists(mirror_dir_of(root, m.store)),
            ),
            None => stegano_stop(m, Outcome::Failed(root_fault(e))),
        },
        SteganoPhase::MirrorCheck => if e == EventView::Yes {
            stegano_to(m, SteganoPhase::Remove, ActionView::RemoveTree(mirror_dir_of(m.root, m.store)))
        } else {
            check_root
        },
        SteganoPhase::Remove => if e == EventView::Done {
            check_root
        } else {
            done
        },
        SteganoPhase::RootCheck => if e == EventView::Yes {
            stegano_to(m, SteganoPhase::RootEmpty, ActionView::IsEmptyDir(trunk_root_of(m.root)))
        } else {
            read_ignore
        },
        SteganoPhase::RootEmpty => if e == EventView::Yes {
            stegano_to(m, SteganoPhase::RootRemove, ActionView::RemoveDir(trunk_root_of(m.root)))
        } else {
            done
        },
        SteganoPhase::RootRemove => if e == EventView::Done {
            read_ignore
        } else {
            done
        },
        SteganoPhase::ReadIgnore => match ignore_file_removal(e) {
            Some(t) => stegano_to(
                m,
                SteganoPhase::WriteIgnore,
                ActionView::WriteFile { path: ignore_file_of(m.root), text: t },
            ),
            None => done,
        },
        SteganoPhase::WriteIgnore => done,
        SteganoPhase::Over => done,
    }
}

/// `stegano` never runs a version-control command once it knows the
/// repository root, so no ref, local or remote, is ever changed; the two it
/// runs before only read where the repository is.
pub proof fn lemma_stegano_touches_no_ref(m: SteganoView, e: EventView)
    ensures
        m.phase != SteganoPhase::Inside ==> !(stegano_next(m, e).1 is Git),
        stegano_start(m.store).1 is Git ==> stegano_start(m.store).1 == (ActionView::Git {
            dir: None,
            args: seq!["rev-parse"@, "--is-inside-work-tree"@],
        }),
        m.phase == SteganoPhase::Inside && stegano_next(m, e).1 is Git ==> stegano_next(m, e).1
            == (ActionView::Git { dir: None, args: seq!["rev-parse"@, "--show-toplevel"@] }),
{
}

impl Stegano {
    /// Starts `stegano` of `store`.
    pub fn start(_args: &SteganoArgs, store: &str) -> (r: (Stegano, Action))
        ensures
            (r.0@, r.1@) == stegano_start(store@),
    {
        let mut m = Stegano {
            store: String::from_str(store),
            root: String::new(),
            phase: SteganoPhase::Inside,
        };
        if !check_store_name(store) {
            m.phase = SteganoPhase::Over;
            return (m, fail(Fault::InvalidStoreName));
        }
        let a = git_here(&["rev-parse", "--is-inside-work-tree"]);
        proof {
            assert(a@->args =~= seq!["rev-parse"@, "--is-inside-work-tree"@]);
        }
        (m, a)
    }

    fn go(&mut self, p: SteganoPhase, a: Action) -> (r: Action)
        ensures
            (final(self)@, r@) == stegano_to(old(self)@, p, a@),
    {
        self.phase = p;
        a
    }

    fn stop(&mut self, o: Outcome) -> (r: Action)
        ensures
            (final(self)@, r@) == stegano_stop(old(self)@, o),
    {
        self.phase = SteganoPhase::Over;
        Action::Finish(o)
    }

    /// Takes the result of the last action and gives the next one.
    pub fn next(&mut self, e: Event) -> (a: Action)
        requires
            old(self)@.phase != SteganoPhase::Over,
        ensures
            (final(self)@, a@) == stegano_next(old(self)@, e@),
    {
        let paths = resolve(self.root.as_str(), self.store.as_str());
        match self.phase {
            SteganoPhase::Inside => {
                if e.ran_ok() {
                    let a = git_here(&["rev-parse", "--show-toplevel"]);
                    proof {
                        assert(a@->args =~= seq!["rev-parse"@, "--show-toplevel"@]);
                    }
                    self.go(SteganoPhase::Toplevel, a)
                } else {
                    self.stop(Outcome::Failed(e.root_fault()))
                }
            },
            SteganoPhase::Toplevel => match e.printed() {
                Some(root) => {
                    self.root = root;
                    let a = Action::Exists(resolve(self.root.as_str(), self.store.as_str()).mirror_dir);
                    self.go(SteganoPhase::MirrorCheck, a)
                },
                None => self.stop(Outcome::Failed(e.root_fault())),
            },
            SteganoPhase::MirrorCheck => {
                if let Event::Yes = e {
                    self.go(SteganoPhase::Remove, Action::RemoveTree(paths.mirror_dir))
                } else {
                    self.go(SteganoPhase::RootCheck, Action::Exists(paths.trunk_root))
                }
            },
            SteganoPhase::Remove => {
                if let Event::Done = e {
                    self.go(SteganoPhase::RootCheck, Action::Exists(paths.trunk_root))
                } else {
                    self.stop(Outcome::Done)
                }
            },
            SteganoPhase::RootCheck => {
                if let Event::Yes = e {
                    self.go(SteganoPhase::RootEmpty, Action::IsEmptyDir(paths.trunk_root))
                } else {
                    let a = Action::ReadFile(ignore_file(self.root.as_str()));
                    self.go(SteganoPhase::ReadIgnore, a)
                }
            },
            SteganoPhase::RootEmpty => {
                if let Event::Yes = e {
                    self.go(SteganoPhase::RootRemove, Action::RemoveDir(paths.trunk_root))
                } else {
                    self.stop(Outcome::Done)
                }
            },
            SteganoPhase::RootRemove => {
                if let Event::Done = e {
                    let a = Action::ReadFile(ignore_file(self.root.as_str()));
                    self.go(SteganoPhase::ReadIgnore, a)
                } else {
                    self.stop(Outcome::Done)
                }
            },
            SteganoPhase::ReadIgnore => match ignore_file_removal_for(&e) {
                Some(text) => {
                    let a = Action::WriteFile { path: ignore_file(self.root.as_str()), text };
                    self.go(SteganoPhase::WriteIgnore, a)
                },
                None => self.stop(Outcome::Done),
            },
            SteganoPhase::WriteIgnore | SteganoPhase::Over => self.stop(Outcome::Done),
        }
    }
}

} // verus!
