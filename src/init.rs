//! `init`: create a store's mirror directory as a repository of its own,
//! with a first commit holding a readme.
use crate::ignore::{ignore_file_update, ignore_file_update_for};
use crate::protocol::{
    fail, git_fault, git_here, git_in, printed_of, ran_ok, root_fault, Action, ActionView, Event,
    EventView, Fault, Outcome,
};
use crate::store::{check_store_name, ignore_file, ignore_file_of, is_store_name, mirror_dir_of, resolve};
use vstd::prelude::*;

verus! {

/// Options of `init`.
pub struct InitArgs {
    /// Replace an existing mirror directory.
    pub force: bool,
}

/// Where a run of `init` stands: what it waits for.
#[derive(PartialEq, Eq, Structural, Clone, Copy, Debug)]
pub enum InitPhase {
    /// Waiting to learn whether the current directory is in a working tree.
    Inside,
    /// Waiting for the repository root.
    Toplevel,
    /// Waiting for the ignore file's text.
    ReadIgnore,
    /// Waiting for the ignore file to be written.
    WriteIgnore,
    /// Waiting to learn whether the mirror directory exists.
    MirrorCheck,
    /// Waiting for the old mirror to be removed.
    Remove,
    /// Waiting for the mirror directory to be created.
    MakeMirror,
    /// Waiting for the readme to be written.
    Readme,
    /// Waiting for the mirror repository to be initialized.
    Init,
    /// Waiting for the readme to be staged.
    Stage,
    /// Waiting for the first commit.
    Record,
    /// Finished.
    Over,
}

/// A run of `init`.
pub struct Init {
    pub force: bool,
    pub store: String,
    pub root: String,
    pub phase: InitPhase,
}

/// A run of `init` as the contracts see it.
pub ghost struct InitView {
    pub force: bool,
    pub store: Seq<char>,
    pub root: Seq<char>,
    pub phase: InitPhase,
}

impl View for Init {
    type V = InitView;

    open spec fn view(&self) -> InitView {
        InitView { force: self.force, store: self.store@, root: self.root@, phase: self.phase }
    }
}

/// The readme of a new store.
pub open spec fn readme_path_of(root: Seq<char>, store: Seq<char>) -> Seq<char> {
    mirror_dir_of(root, store) + "/readme.md"@
}

/// What the readme of a new store says.
pub open spec fn readme_text(store: Seq<char>) -> Seq<char> {
    "# Trunk Documents for Store: "@ + store
        + "\n\nThis directory stores repository-wide documents for the '"@ + store
        + "' store, managed by git-trunk.\n"@
}

/// The message of a store's first commit.
pub open spec fn first_message(store: Seq<char>) -> Seq<char> {
    "Initial commit for store '"@ + store + "'"@
}

/// The first step of `init`: check that it runs inside a working tree.
pub open spec fn init_start(force: bool, store: Seq<char>) -> (InitView, ActionView) {
    let m = InitView { force, store, root: Seq::empty(), phase: InitPhase::Inside };
    if !is_store_name(store) {
        (
            InitView { phase: InitPhase::Over, ..m },
            ActionView::Finish(Outcome::Failed(Fault::InvalidStoreName)),
        )
    } else {
        (m, ActionView::Git { dir: None, args: seq!["rev-parse"@, "--is-inside-work-tree"@] })
    }
}

/// Moving on to the given phase with the given action.
pub open spec fn init_to(m: InitView, p: InitPhase, a: ActionView) -> (InitView, ActionView) {
    (InitView { phase: p, ..m }, a)
}

/// Stopping with the given outcome.
pub open spec fn init_stop(m: InitView, o: Outcome) -> (InitView, ActionView) {
    (InitView { phase: InitPhase::Over, ..m }, ActionView::Finish(o))
}

/// Run in the mirror directory.
pub open spec fn init_in_mirror(m: InitView, args: Seq<Seq<char>>) -> ActionView {
    ActionView::Git { dir: Some(mirror_dir_of(m.root, m.store)), args }
}

/// The step of `init` after the event `e`.
pub open spec fn init_next(m: InitView, e: EventView) -> (InitView, ActionView) {
    let failed = init_stop(m, Outcome::Failed(git_fault(e)));
    let fs_failed = init_stop(m, Outcome::Failed(Fault::FileOperationFailed));
    let mirror = mirror_dir_of(m.root, m.store);
    let check_mirror = init_to(m, InitPhase::MirrorCheck, ActionView::Exists(mirror));
    let make = init_to(m, InitPhase::MakeMirror, ActionView::MakeDir(mirror));
    match m.phase {
        InitPhase::Inside => if ran_ok(e) {
            init_to(
                m,
                InitPhase::Toplevel,
                ActionView::Git { dir: None, args: seq!["rev-parse"@, "--show-toplevel"@] },
            )
        } else {
            init_stop(m, Outcome::Failed(root_fault(e)))
        },
        InitPhase::Toplevel => match printed_of(e) {
            Some(root) => (
                InitView { root, phase: InitPhase::ReadIgnore, ..m },
                ActionView::ReadFile(ignore_file_of(root)),
            ),
            None => init_stop(m, Outcome::Failed(root_fault(e))),
        },
        InitPhase::ReadIgnore => match ignore_file_update(e) {
            Some(Some(t)) => init_to(
                m,
                InitPhase::WriteIgnore,
                ActionView::WriteFile { path: ignore_file_of(m.root), text: t },
            ),
            Some(None) => check_mirror,
            None => fs_failed,
        },
        InitPhase::WriteIgnore => if e == EventView::Done {
            check_mirror
        } else {
            fs_failed
        },
        InitPhase::MirrorCheck => if e == EventView::Yes {
            if m.force {
                init_to(m, InitPhase::Remove, ActionView::RemoveTree(mirror))
            } else {
                init_stop(m, Outcome::AlreadyInitialized)
            }
        } else {
            make
        },
        InitPhase::Remove => if e == EventView::Done {
            make
        } else {
            fs_failed
        },
        InitPhase::MakeMirror => if e == EventView::Done {
            init_to(
                m,
                InitPhase::Readme,
                ActionView::WriteFile {
                    path: readme_path_of(m.root, m.store),
                    text: readme_text(m.store),
                },
            )
        } else {
            fs_failed
        },
        InitPhase::Readme => if e == EventView::Done {
            init_to(m, InitPhase::Init, init_in_mirror(m, seq!["init"@, "--initial-branch=main"@]))
        } else {
            fs_failed
        },
        InitPhase::Init => if ran_ok(e) {
            init_to(m, InitPhase::Stage, init_in_mirror(m, seq!["add"@, "-A"@]))
        } else {
            failed
        },
        InitPhase::Stage => if ran_ok(e) {
            init_to(
                m,
                InitPhase::Record,
                init_in_mirror(m, seq!["commit"@, "-m"@, first_message(m.store)]),
            )
        } else {
            failed
        },
        InitPhase::Record => if ran_ok(e) {
            init_stop(m, Outcome::Done)
        } else {
            failed
        },
        InitPhase::Over => init_stop(m, Outcome::Done),
    }
}

/// Without `force`, `init` of a store whose mirror already exists changes
/// nothing after the ignore entry: it ends at once, reporting the store as
/// initialized before.
pub proof fn lemma_init_existing_mirror(m: InitView)
    requires
        m.phase == InitPhase::MirrorCheck,
        !m.force,
    ensures
        init_next(m, EventView::Yes).1 == ActionView::Finish(Outcome::AlreadyInitialized),
{
}

/// `init` never asks the user anything.
pub proof fn lemma_init_asks_nothing(m: InitView, e: EventView)
    ensures
        !(init_next(m, e).1 is Ask),
{
}

impl Init {
    /// Starts `init` of `store`.
    pub fn start(args: &InitArgs, store: &str) -> (r: (Init, Action))
        ensures
            (r.0@, r.1@) == init_start(args.force, store@),
    {
        let mut m = Init {
            force: args.force,
            store: String::from_str(store),
            root: String::new(),
            phase: InitPhase::Inside,
        };
        if !check_store_name(store) {
            m.phase = InitPhase::Over;
            return (m, fail(Fault::InvalidStoreName));
        }
        let a = git_here(&["rev-parse", "--is-inside-work-tree"]);
        proof {
            assert(a@->args =~= seq!["rev-parse"@, "--is-inside-work-tree"@]);
        }
        (m, a)
    }

    fn mirror(&self) -> (r: String)
        ensures
            r@ == mirror_dir_of(self.root@, self.store@),
    {
        resolve(self.root.as_str(), self.store.as_str()).mirror_dir
    }

    fn go(&mut self, p: InitPhase, a: Action) -> (r: Action)
        ensures
            (final(self)@, r@) == init_to(old(self)@, p, a@),
    {
        self.phase = p;
        a
    }

    fn stop(&mut self, o: Outcome) -> (r: Action)
        ensures
            (final(self)@, r@) == init_stop(old(self)@, o),
    {
        self.phase = InitPhase::Over;
        Action::Finish(o)
    }

    fn in_mirror(&self, ws: &[&str]) -> (r: Action)
        ensures
            r@ == init_in_mirror(self@, ws@.map_values(|w: &str| w@)),
    {
        let dir = self.mirror();
        git_in(dir.as_str(), ws)
    }

    fn readme(&self) -> (r: Action)
        ensures
            r@ == (ActionView::WriteFile {
                path: readme_path_of(self.root@, self.store@),
                text: readme_text(self.store@),
            }),
    {
        let mut path = self.mirror();
        path.append("/readme.md");
        let mut text = String::from_str("# Trunk Documents for Store: ");
        text.append(self.store.as_str());
        text.append("\n\nThis directory stores repository-wide documents for the '");
        text.append(self.store.as_str());
        text.append("' store, managed by git-trunk.\n");
        Action::WriteFile { path, text }
    }

    /// Takes the result of the last action and gives the next one.
    pub fn next(&mut self, e: Event) -> (a: Action)
        requires
            old(self)@.phase != InitPhase::Over,
        ensures
            (final(self)@, a@) == init_next(old(self)@, e@),
    {
        match self.phase {
            InitPhase::Inside => {
                if e.ran_ok() {
                    let a = git_here(&["rev-parse", "--show-toplevel"]);
                    proof {
                        assert(a@->args =~= seq!["rev-parse"@, "--show-toplevel"@]);
                    }
                    self.go(InitPhase::Toplevel, a)
                } else {
                    self.stop(Outcome::Failed(e.root_fault()))
                }
            },
            InitPhase::Toplevel => match e.printed() {
                Some(root) => {
                    self.root = root;
                    let a = Action::ReadFile(ignore_file(self.root.as_str()));
                    self.go(InitPhase::ReadIgnore, a)
                },
                None => self.stop(Outcome::Failed(e.root_fault())),
            },
            InitPhase::ReadIgnore => match ignore_file_update_for(&e) {
                Some(Some(text)) => {
                    let a = Action::WriteFile { path: ignore_file(self.root.as_str()), text };
                    self.go(InitPhase::WriteIgnore, a)
                },
                Some(None) => {
                    let a = Action::Exists(self.mirror());
                    self.go(InitPhase::MirrorCheck, a)
                },
                None => self.stop(Outcome::Failed(Fault::FileOperationFailed)),
            },
            InitPhase::WriteIgnore => {
                if let Event::Done = e {
                    let a = Action::Exists(self.mirror());
                    self.go(InitPhase::MirrorCheck, a)
                } else {
                    self.stop(Outcome::Failed(Fault::FileOperationFailed))
                }
            },
            InitPhase::MirrorCheck => {
                if let Event::Yes = e {
                    if self.force {
                        let a = Action::RemoveTree(self.mirror());
                        self.go(InitPhase::Remove, a)
                    } else {
                        self.stop(Outcome::AlreadyInitialized)
                    }
                } else {
                    let a = Action::MakeDir(self.mirror());
                    self.go(InitPhase::MakeMirror, a)
                }
            },
            InitPhase::Remove => {
                if let Event::Done = e {
                    let a = Action::MakeDir(self.mirror());
                    self.go(InitPhase::MakeMirror, a)
                } else {
                    self.stop(Outcome::Failed(Fault::FileOperationFailed))
                }
            },
            InitPhase::MakeMirror => {
                if let Event::Done = e {
                    let a = self.readme();
                    self.go(InitPhase::Readme, a)
                } else {
                    self.stop(Outcome::Failed(Fault::FileOperationFailed))
                }
            },
            InitPhase::Readme => {
                if let Event::Done = e {
                    let a = self.in_mirror(&["init", "--initial-branch=main"]);
                    proof {
                        assert(a@->args =~= seq!["init"@, "--initial-branch=main"@]);
                    }
                    self.go(InitPhase::Init, a)
                } else {
                    self.stop(Outcome::Failed(Fault::FileOperationFailed))
                }
            },
            InitPhase::Init => {
                if e.ran_ok() {
                    let a = self.in_mirror(&["add", "-A"]);
                    proof {
                        assert(a@->args =~= seq!["add"@, "-A"@]);
                    }
                    self.go(InitPhase::Stage, a)
                } else {
                    self.stop(Outcome::Failed(e.git_fault()))
                }
            },
            InitPhase::Stage => {
                if e.ran_ok() {
                    let mut msg = String::from_str("Initial commit for store '");
                    msg.append(self.store.as_str());
                    msg.append("'");
                    let a = self.in_mirror(&["commit", "-m", msg.as_str()]);
                    proof {
                        assert(a@->args =~= seq!["commit"@, "-m"@, first_message(self.store@)]);
                    }
                    self.go(InitPhase::Record, a)
                } else {
                    self.stop(Outcome::Failed(e.git_fault()))
                }
            },
            InitPhase::Record => {
                if e.ran_ok() {
                    self.stop(Outcome::Done)
                } else {
                    self.stop(Outcome::Failed(e.git_fault()))
                }
            },
            InitPhase::Over => self.stop(Outcome::Done),
        }
    }
}

} // verus!
