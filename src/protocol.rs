//! The vocabulary shared by every command: what a command asks its host to
//! do next (`Action`), what the host reports back (`Event`), and how a
//! command ends (`Outcome`).
//!
//! A command is a state machine. Its host performs each action (running the
//! version-control binary, touching the file system, asking the user) and
//! hands the result back as an event, until the action is `Finish`.
use crate::info::{StoreReport, StoreReportView};
use crate::text::{trim, trimmed, views};
use vstd::prelude::*;

verus! {

/// What running the version-control binary gave.
pub enum GitReply {
    /// The binary could not be found.
    Missing,
    /// The binary was found, but the command could not be run.
    Unrunnable,
    /// The command ran; `success` tells whether it exited with status zero.
    Exited { success: bool, stdout: String },
}

/// What the host reports after performing an action.
pub enum Event {
    /// The version-control command's result.
    Git(GitReply),
    /// The question was answered yes, or the probed condition holds.
    Yes,
    /// The question was answered no, or the probed condition does not hold.
    No,
    /// The change to the file system was made.
    Done,
    /// The file-system operation failed.
    Failed,
    /// The file's text, or `None` when there is no such file.
    Text(Option<String>),
    /// The names of the subdirectories of the directory.
    Names(Vec<String>),
}

/// A question put to the user, answered yes or no.
#[derive(PartialEq, Eq, Structural, Clone, Copy, Debug)]
pub enum Question {
    /// Remove the existing mirror directory and check the store out anew?
    OverwriteMirror,
    /// Stage every change in the mirror directory?
    StageAll,
    /// Delete the store's mirror, its local ref and its remote ref?
    DeleteStore,
    /// Replace the existing hook script?
    OverwriteHook(Hook),
    /// Install the hook script?
    InstallHook(Hook),
}

/// The two hook scripts a store can install.
#[derive(PartialEq, Eq, Structural, Clone, Copy, Debug)]
pub enum Hook {
    /// Commits the store after each commit of the main repository.
    PostCommit,
    /// Pushes the store's ref when the main branch is pushed.
    PrePush,
}

/// Why a command stopped.
#[derive(PartialEq, Eq, Structural, Clone, Copy, Debug)]
pub enum Fault {
    /// The version-control binary is not installed.
    ToolNotFound,
    /// The store name is empty, holds a path separator or `..`, or is `.`.
    InvalidStoreName,
    /// The command was run outside a working tree.
    NotInRepository,
    /// The store has no mirror directory; it has to be initialized first.
    MirrorMissing,
    /// The store's ref is not in the main repository; it has to be committed first.
    RefMissing,
    /// The store's ref is neither local nor on the remote; it has to be pushed first.
    RefNotOnRemote,
    /// The store's ref is still missing after it was fetched.
    RefMissingAfterFetch,
    /// The mirror has no commit on its main branch.
    NoCommit,
    /// A version-control command that had to succeed failed.
    CommandFailed,
    /// A file-system operation that had to succeed failed.
    FileOperationFailed,
}

/// What happened to one of a store's three locations when it was deleted.
#[derive(PartialEq, Eq, Structural, Clone, Copy, Debug)]
pub enum Removal {
    /// It was there and is gone.
    Removed,
    /// It was not there: nothing to remove.
    Absent,
    /// It was there and removing it failed.
    Kept,
}

/// How a command ended.
#[derive(PartialEq, Eq, Structural, Clone, Copy, Debug)]
pub enum Outcome {
    /// Every step was done.
    Done,
    /// The store was initialized before; nothing was changed.
    AlreadyInitialized,
    /// The user declined; the command stopped cleanly.
    Declined,
    /// The store was deleted, as far as each location says.
    Deleted { mirror: Removal, local_ref: Removal, remote_ref: Removal },
    /// There was no store to report on.
    NothingFound,
    /// A step failed and the command stopped.
    Failed(Fault),
}

/// The next thing a command needs done.
pub enum Action {
    /// Run the version-control binary with `args`, in `dir` (the current
    /// directory when `None`).
    Git { dir: Option<String>, args: Vec<String> },
    /// Does the path exist? (`Yes` or `No`.)
    Exists(String),
    /// Is the directory empty? (`Yes`, `No`, or `Failed` when it cannot be read.)
    IsEmptyDir(String),
    /// Create the directory and its missing parents.
    MakeDir(String),
    /// Remove the directory and everything in it.
    RemoveTree(String),
    /// Remove the empty directory.
    RemoveDir(String),
    /// Read the file's text.
    ReadFile(String),
    /// Replace the file's text, creating the file if needed.
    WriteFile { path: String, text: String },
    /// Mark the file executable.
    MakeExecutable(String),
    /// List the subdirectories of the directory (`Names`, or `Failed`).
    ListDirs(String),
    /// Ask the user.
    Ask(Question),
    /// Show what was found out about one store (`Done`).
    Show(StoreReport),
    /// Stop with this outcome.
    Finish(Outcome),
}

/// `GitReply` as the contracts see it.
pub ghost enum GitReplyView {
    Missing,
    Unrunnable,
    Exited { success: bool, stdout: Seq<char> },
}

/// `Event` as the contracts see it.
pub ghost enum EventView {
    Git(GitReplyView),
    Yes,
    No,
    Done,
    Failed,
    Text(Option<Seq<char>>),
    Names(Seq<Seq<char>>),
}

/// `Action` as the contracts see it.
pub ghost enum ActionView {
    Git { dir: Option<Seq<char>>, args: Seq<Seq<char>> },
    Exists(Seq<char>),
    IsEmptyDir(Seq<char>),
    MakeDir(Seq<char>),
    RemoveTree(Seq<char>),
    RemoveDir(Seq<char>),
    ReadFile(Seq<char>),
    WriteFile { path: Seq<char>, text: Seq<char> },
    MakeExecutable(Seq<char>),
    ListDirs(Seq<char>),
    Ask(Question),
    Show(StoreReportView),
    Finish(Outcome),
}

impl View for GitReply {
    type V = GitReplyView;

    open spec fn view(&self) -> GitReplyView {
        match self {
            GitReply::Missing => GitReplyView::Missing,
            GitReply::Unrunnable => GitReplyView::Unrunnable,
            GitReply::Exited { success, stdout } => GitReplyView::Exited {
                success: *success,
                stdout: stdout@,
            },
        }
    }
}

impl View for Event {
    type V = EventView;

    open spec fn view(&self) -> EventView {
        match self {
            Event::Git(g) => EventView::Git(g@),
            Event::Yes => EventView::Yes,
            Event::No => EventView::No,
            Event::Done => EventView::Done,
            Event::Failed => EventView::Failed,
            Event::Text(t) => EventView::Text(
                match t {
                    Some(s) => Some(s@),
                    None => None,
                },
            ),
            Event::Names(ns) => EventView::Names(views(ns@)),
        }
    }
}

impl View for Action {
    type V = ActionView;

    open spec fn view(&self) -> ActionView {
        match self {
            Action::Git { dir, args } => ActionView::Git {
                dir: match dir {
                    Some(d) => Some(d@),
                    None => None,
                },
                args: views(args@),
            },
            Action::Exists(p) => ActionView::Exists(p@),
            Action::IsEmptyDir(p) => ActionView::IsEmptyDir(p@),
            Action::MakeDir(p) => ActionView::MakeDir(p@),
            Action::RemoveTree(p) => ActionView::RemoveTree(p@),
            Action::RemoveDir(p) => ActionView::RemoveDir(p@),
            Action::ReadFile(p) => ActionView::ReadFile(p@),
            Action::WriteFile { path, text } => ActionView::WriteFile {
                path: path@,
                text: text@,
            },
            Action::MakeExecutable(p) => ActionView::MakeExecutable(p@),
            Action::ListDirs(p) => ActionView::ListDirs(p@),
            Action::Ask(q) => ActionView::Ask(*q),
            Action::Show(r) => ActionView::Show(r@),
            Action::Finish(o) => ActionView::Finish(*o),
        }
    }
}

/// The event reports a command that ran and exited with status zero.
pub open spec fn ran_ok(e: EventView) -> bool {
    e matches EventView::Git(GitReplyView::Exited { success, .. }) && success
}

/// The event reports a command that ran, whatever its status.
pub open spec fn ran(e: EventView) -> bool {
    e matches EventView::Git(GitReplyView::Exited { .. })
}

/// What the command printed, when it ran.
pub open spec fn stdout_of(e: EventView) -> Seq<char> {
    match e {
        EventView::Git(GitReplyView::Exited { stdout, .. }) => stdout,
        _ => Seq::empty(),
    }
}

/// The fault for a version-control command that had to succeed and did not.
pub open spec fn git_fault(e: EventView) -> Fault {
    if e matches EventView::Git(GitReplyView::Missing) {
        Fault::ToolNotFound
    } else {
        Fault::CommandFailed
    }
}

/// What a command that ran successfully printed, without whitespace at its
/// ends, when that is not empty (a repository root, a commit hash).
pub open spec fn printed_of(e: EventView) -> Option<Seq<char>> {
    if ran_ok(e) && trimmed(stdout_of(e)).len() > 0 {
        Some(trimmed(stdout_of(e)))
    } else {
        None
    }
}

/// Why the repository root could not be had: outside a working tree when
/// the command ran, else the binary's fault.
pub open spec fn root_fault(e: EventView) -> Fault {
    if ran(e) {
        Fault::NotInRepository
    } else {
        git_fault(e)
    }
}

/// The outcome a command ends with: zero for every outcome but a failure.
pub open spec fn exit_status_of(o: Outcome) -> i32 {
    if o is Failed {
        1
    } else {
        0
    }
}

/// The process exit status for `o`.
pub fn exit_status(o: Outcome) -> (r: i32)
    ensures
        r == exit_status_of(o),
{
    match o {
        Outcome::Failed(_) => 1,
        _ => 0,
    }
}

impl Event {
    /// Whether the event reports a command that ran and exited with status zero.
    pub fn ran_ok(&self) -> (r: bool)
        ensures
            r == ran_ok(self@),
    {
        match self {
            Event::Git(GitReply::Exited { success, .. }) => *success,
            _ => false,
        }
    }

    /// Whether the event reports a command that ran.
    pub fn ran(&self) -> (r: bool)
        ensures
            r == ran(self@),
    {
        match self {
            Event::Git(GitReply::Exited { .. }) => true,
            _ => false,
        }
    }

    /// What the command printed, when it ran.
    pub fn stdout(&self) -> (r: &str)
        ensures
            r@ == stdout_of(self@),
    {
        match self {
            Event::Git(GitReply::Exited { stdout, .. }) => stdout.as_str(),
            _ => {
                proof {
                    reveal_strlit("");
                }
                ""
            },
        }
    }

    /// The text that a successful command printed, trimmed, when not empty.
    pub fn printed(&self) -> (r: Option<String>)
        ensures
            r matches Some(t) ==> printed_of(self@) == Some(t@),
            r is None ==> printed_of(self@) is None,
    {
        if !self.ran_ok() {
            return None;
        }
        let t = trim(self.stdout());
        if t.unicode_len() == 0 {
            None
        } else {
            Some(String::from_str(t))
        }
    }

    /// Why the repository root could not be had.
    pub fn root_fault(&self) -> (r: Fault)
        ensures
            r == root_fault(self@),
    {
        if self.ran() {
            Fault::NotInRepository
        } else {
            self.git_fault()
        }
    }

    /// The fault for a version-control command that had to succeed and did not.
    pub fn git_fault(&self) -> (r: Fault)
        ensures
            r == git_fault(self@),
    {
        match self {
            Event::Git(GitReply::Missing) => Fault::ToolNotFound,
            _ => Fault::CommandFailed,
        }
    }
}

/// The argument list made of the given words.
pub fn words(ws: &[&str]) -> (r: Vec<String>)
    ensures
        r@.len() == ws@.len(),
        forall|i: int| 0 <= i < ws@.len() ==> #[trigger] r@[i]@ == ws@[i]@,
{
    let mut r: Vec<String> = Vec::new();
    let mut i: usize = 0;
    while i < ws.len()
        invariant
            i <= ws@.len(),
            r@.len() == i,
            forall|j: int| 0 <= j < i ==> #[trigger] r@[j]@ == ws@[j]@,
        decreases ws@.len() - i,
    {
        r.push(String::from_str(ws[i]));
        i = i + 1;
    }
    r
}

/// A version-control command run in `dir`.
pub fn git_in(dir: &str, ws: &[&str]) -> (r: Action)
    ensures
        r@ == (ActionView::Git { dir: Some(dir@), args: ws@.map_values(|w: &str| w@) }),
{
    let args = words(ws);
    assert(views(args@) =~= ws@.map_values(|w: &str| w@));
    Action::Git { dir: Some(String::from_str(dir)), args }
}

/// A version-control command run in the current directory.
pub fn git_here(ws: &[&str]) -> (r: Action)
    ensures
        r@ == (ActionView::Git { dir: None, args: ws@.map_values(|w: &str| w@) }),
{
    let args = words(ws);
    assert(views(args@) =~= ws@.map_values(|w: &str| w@));
    Action::Git { dir: None, args }
}

/// Stop with a failure.
pub fn fail(f: Fault) -> (r: Action)
    ensures
        r@ == ActionView::Finish(Outcome::Failed(f)),
{
    Action::Finish(Outcome::Failed(f))
}

} // verus!
