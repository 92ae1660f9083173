//! `hooks`: install the two hook scripts of a store, each only when the user
//! agrees or `force` is given.
use crate::protocol::{
    fail, git_here, printed_of, ran_ok, root_fault, Action, ActionView, Event, EventView, Fault,
    Hook, Outcome, Question,
};
use crate::store::{check_store_name, is_store_name, ref_name, ref_name_of};
use crate::text::{concat_all, join_pieces};
use vstd::prelude::*;

verus! {

/// Options of `hooks`.
pub struct HooksArgs {
    /// Install both hooks, replacing existing ones, without asking.
    pub force: bool,
}

/// Where a run of `hooks` stands: what it waits for.
#[derive(PartialEq, Eq, Structural, Clone, Copy, Debug)]
pub enum HooksPhase {
    /// Waiting for the repository root.
    Toplevel,
    /// Waiting to learn whether the current directory is in a working tree.
    Inside,
    /// Waiting for the hook directory to be created.
    MakeHooks,
    /// Waiting to learn whether the hook script exists.
    Probe(Hook),
    /// Waiting for the user's answer about the hook.
    Confirm(Hook),
    /// Waiting for the hook script to be written.
    Write(Hook),
    /// Waiting for the hook script to be made executable.
    Chmod(Hook),
    /// Finished.
    Over,
}

/// A run of `hooks`.
pub struct Hooks {
    pub force: bool,
    pub store: String,
    pub root: String,
    pub phase: HooksPhase,
}

/// A run of `hooks` as the contracts see it.
pub ghost struct HooksView {
    pub force: bool,
    pub store: Seq<char>,
    pub root: Seq<char>,
    pub phase: HooksPhase,
}

impl View for Hooks {
    type V = HooksView;

    open spec fn view(&self) -> HooksView {
        HooksView { force: self.force, store: self.store@, root: self.root@, phase: self.phase }
    }
}

/// The directory of the main repository's hook scripts.
pub open spec fn hooks_dir_of(root: Seq<char>) -> Seq<char> {
    root + "/.git/hooks"@
}

/// Where the hook script lives.
pub open spec fn hook_path_of(root: Seq<char>, h: Hook) -> Seq<char> {
    hooks_dir_of(root) + match h {
        Hook::PostCommit => "/post-commit"@,
        Hook::PrePush => "/pre-push"@,
    }
}

/// The post-commit script: commit the store after each commit.
pub open spec fn post_commit_script(s: Seq<char>) -> Seq<char> {
    concat_all(
        seq![
            "#!/bin/sh\n# Post-commit hook to auto-commit .trunk/"@,
            s,
            " changes\n# This hook is managed by git-trunk.\necho \"Git Trunk: Running post-commit hook for store '"@,
            s,
            "'...\"\ngit trunk commit --force --store "@,
            s,
            "\nif [ $? -eq 0 ]; then\n    echo \"Git Trunk: Store '"@,
            s,
            "' committed successfully.\"\nelse\n    echo \"Git Trunk: Warning - Failed to commit store '"@,
            s,
            "'.\" >&2\nfi\n"@,
        ],
    )
}

/// The pre-push script: push the store's ref along with the main branch.
pub open spec fn pre_push_script(s: Seq<char>) -> Seq<char> {
    let r = ref_name_of(s);
    concat_all(
        seq![
            "#!/bin/sh\n# Pre-push hook to ensure "@,
            r,
            " is pushed when main branch is pushed.\n# This hook is managed by git-trunk.\nremote_name=\"$1\"\n\nwhile read local_ref local_sha remote_ref remote_sha\ndo\n    if [ \"$local_ref\" = \"refs/heads/main\" ] || [ \"$local_ref\" = \"refs/heads/master\" ]; then\n        echo \"Git Trunk: Main branch is being pushed to '$remote_name'.\"\n        echo \"Git Trunk: Ensuring "@,
            r,
            " for store '"@,
            s,
            "' is also pushed.\"\n        git push \"$remote_name\" "@,
            r,
            ":"@,
            r,
            "\n        if [ $? -eq 0 ]; then\n            echo \"Git Trunk: "@,
            r,
            " pushed successfully to '$remote_name'.\"\n        else\n            echo \"Git Trunk: Warning - Failed to push "@,
            r,
            " to '$remote_name'.\" >&2\n            echo \"Git Trunk: You might need to push it manually: git trunk push --store "@,
            s,
            " --remote $remote_name\" >&2\n        fi\n    fi\ndone\n\n# Never block the main push; warnings go to stderr.\nexit 0\n"@,
        ],
    )
}

/// The script of the hook.
pub open spec fn hook_script(s: Seq<char>, h: Hook) -> Seq<char> {
    match h {
        Hook::PostCommit => post_commit_script(s),
        Hook::PrePush => pre_push_script(s),
    }
}

/// The first step of `hooks`: ask for the repository root.
pub open spec fn hooks_start(force: bool, store: Seq<char>) -> (HooksView, ActionView) {
    let m = HooksView { force, store, root: Seq::empty(), phase: HooksPhase::Toplevel };
    if !is_store_name(store) {
        (
            HooksView { phase: HooksPhase::Over, ..m },
            ActionView::Finish(Outcome::Failed(Fault::InvalidStoreName)),
        )
    } else {
        (m, ActionView::Git { dir: None, args: seq!["rev-parse"@, "--show-toplevel"@] })
    }
}

/// Moving on to the given phase with the given action.
pub open spec fn hooks_to(m: HooksView, p: HooksPhase, a: ActionView) -> (HooksView, ActionView) {
    (HooksView { phase: p, ..m }, a)
}

/// Stopping with the given outcome.
pub open spec fn hooks_stop(m: HooksView, o: Outcome) -> (HooksView, ActionView) {
    (HooksView { phase: HooksPhase::Over, ..m }, ActionView::Finish(o))
}

/// Writing the hook's script.
pub open spec fn install(m: HooksView, h: Hook) -> (HooksView, ActionView) {
    hooks_to(
        m,
        HooksPhase::Write(h),
        ActionView::WriteFile { path: hook_path_of(m.root, h), text: hook_script(m.store, h) },
    )
}

/// Going on after the hook `h` is settled: the pre-push hook follows the
/// post-commit one.
pub open spec fn after(m: HooksView, h: Hook) -> (HooksView, ActionView) {
    match h {
        Hook::PostCommit => hooks_to(
            m,
            HooksPhase::Probe(Hook::PrePush),
            ActionView::Exists(hook_path_of(m.root, Hook::PrePush)),
        ),
        Hook::PrePush => hooks_stop(m, Outcome::Done),
    }
}

/// The step of `hooks` after the event `e`.
pub open spec fn hooks_next(m: HooksView, e: EventView) -> (HooksView, ActionView) {
    match m.phase {
        HooksPhase::Toplevel => match printed_of(e) {
            Some(root) => (
                HooksView { root, phase: HooksPhase::Inside, ..m },
                ActionView::Git { dir: None, args: seq!["rev-parse"@, "--is-inside-work-tree"@] },
            ),
            None => hooks_stop(m, Outcome::Failed(root_fault(e))),
        },
        HooksPhase::Inside => if ran_ok(e) {
            hooks_to(m, HooksPhase::MakeHooks, ActionView::MakeDir(hooks_dir_of(m.root)))
        } else {
            hooks_stop(m, Outcome::Failed(root_fault(e)))
        },
        HooksPhase::MakeHooks => if e == EventView::Done {
            hooks_to(
                m,
                HooksPhase::Probe(Hook::PostCommit),
                ActionView::Exists(hook_path_of(m.root, Hook::PostCommit)),
            )
        } else {
            hooks_stop(m, Outcome::Failed(Fault::FileOperationFailed))
        },
        HooksPhase::Probe(h) => if m.force {
            install(m, h)
        } else if e == EventView::Yes {
            hooks_to(m, HooksPhase::Confirm(h), ActionView::Ask(Question::OverwriteHook(h)))
        } else {
            hooks_to(m, HooksPhase::Confirm(h), ActionView::Ask(Question::InstallHook(h)))
        },
        HooksPhase::Confirm(h) => if e == EventView::Yes {
            install(m, h)
        } else {
            after(m, h)
        },
        HooksPhase::Write(h) => if e == EventView::Done {
            hooks_to(m, HooksPhase::Chmod(h), ActionView::MakeExecutable(hook_path_of(m.root, h)))
        } else {
            hooks_stop(m, Outcome::Failed(Fault::FileOperationFailed))
        },
        HooksPhase::Chmod(h) => after(m, h),
        HooksPhase::Over => hooks_stop(m, Outcome::Done),
    }
}

/// With `force`, `hooks` asks nothing: no step of it is a question.
pub proof fn lemma_hooks_force_asks_nothing(m: HooksView, e: EventView)
    requires
        m.force,
    ensures
        !(hooks_next(m, e).1 is Ask),
        hooks_next(m, e).0.force,
{
}

/// Answering no to every question changes nothing: a declined hook is
/// neither written nor made executable, and the next step is the other
/// hook's check, or the end.
pub proof fn lemma_hooks_declined(m: HooksView, h: Hook, answer: EventView)
    requires
        m.phase == HooksPhase::Confirm(h),
        answer != EventView::Yes,
    ensures
        hooks_next(m, answer) == after(m, h),
        !(hooks_next(m, answer).1 is WriteFile),
        !(hooks_next(m, answer).1 is MakeExecutable),
{
}

/// The text of the hook's script for `store`.
pub fn hook_script_for(store: &str, h: Hook) -> (r: String)
    ensures
        r@ == hook_script(store@, h),
{
    match h {
        Hook::PostCommit => {
            let ps = [
                "#!/bin/sh\n# Post-commit hook to auto-commit .trunk/",
                store,
                " changes\n# This hook is managed by git-trunk.\necho \"Git Trunk: Running post-commit hook for store '",
                store,
                "'...\"\ngit trunk commit --force --store ",
                store,
                "\nif [ $? -eq 0 ]; then\n    echo \"Git Trunk: Store '",
                store,
                "' committed successfully.\"\nelse\n    echo \"Git Trunk: Warning - Failed to commit store '",
                store,
                "'.\" >&2\nfi\n",
            ];
            let r = join_pieces(&ps);
            proof {
                assert(ps@.map_values(|p: &str| p@) =~= seq![
                    "#!/bin/sh\n# Post-commit hook to auto-commit .trunk/"@,
                    store@,
                    " changes\n# This hook is managed by git-trunk.\necho \"Git Trunk: Running post-commit hook for store '"@,
                    store@,
                    "'...\"\ngit trunk commit --force --store "@,
                    store@,
                    "\nif [ $? -eq 0 ]; then\n    echo \"Git Trunk: Store '"@,
                    store@,
                    "' committed successfully.\"\nelse\n    echo \"Git Trunk: Warning - Failed to commit store '"@,
                    store@,
                    "'.\" >&2\nfi\n"@,
                ]);
            }
            r
        },
        Hook::PrePush => {
            let name = ref_name(store);
            let r0 = name.as_str();
            let ps = [
                "#!/bin/sh\n# Pre-push hook to ensure ",
                r0,
                " is pushed when main branch is pushed.\n# This hook is managed by git-trunk.\nremote_name=\"$1\"\n\nwhile read local_ref local_sha remote_ref remote_sha\ndo\n    if [ \"$local_ref\" = \"refs/heads/main\" ] || [ \"$local_ref\" = \"refs/heads/master\" ]; then\n        echo \"Git Trunk: Main branch is being pushed to '$remote_name'.\"\n        echo \"Git Trunk: Ensuring ",
                r0,
                " for store '",
                store,
                "' is also pushed.\"\n        git push \"$remote_name\" ",
                r0,
                ":",
                r0,
                "\n        if [ $? -eq 0 ]; then\n            echo \"Git Trunk: ",
                r0,
                " pushed successfully to '$remote_name'.\"\n        else\n            echo \"Git Trunk: Warning - Failed to push ",
                r0,
                " to '$remote_name'.\" >&2\n            echo \"Git Trunk: You might need to push it manually: git trunk push --store ",
                store,
                " --remote $remote_name\" >&2\n        fi\n    fi\ndone\n\n# Never block the main push; warnings go to stderr.\nexit 0\n",
            ];
            let r = join_pieces(&ps);
            proof {
                let rv = ref_name_of(store@);
                assert(ps@.map_values(|p: &str| p@) =~= seq![
                    "#!/bin/sh\n# Pre-push hook to ensure "@,
                    rv,
                    " is pushed when main branch is pushed.\n# This hook is managed by git-trunk.\nremote_name=\"$1\"\n\nwhile read local_ref local_sha remote_ref remote_sha\ndo\n    if [ \"$local_ref\" = \"refs/heads/main\" ] || [ \"$local_ref\" = \"refs/heads/master\" ]; then\n        echo \"Git Trunk: Main branch is being pushed to '$remote_name'.\"\n        echo \"Git Trunk: Ensuring "@,
                    rv,
                    " for store '"@,
                    store@,
                    "' is also pushed.\"\n        git push \"$remote_name\" "@,
                    rv,
                    ":"@,
                    rv,
                    "\n        if [ $? -eq 0 ]; then\n            echo \"Git Trunk: "@,
                    rv,
                    " pushed successfully to '$remote_name'.\"\n        else\n            echo \"Git Trunk: Warning - Failed to push "@,
                    rv,
                    " to '$remote_name'.\" >&2\n            echo \"Git Trunk: You might need to push it manually: git trunk push --store "@,
                    store@,
                    " --remote $remote_name\" >&2\n        fi\n    fi\ndone\n\n# Never block the main push; warnings go to stderr.\nexit 0\n"@,
                ]);
            }
            r
        },
    }
}

impl Hooks {
    /// Starts `hooks` for `store`.
    pub fn start(args: &HooksArgs, store: &str) -> (r: (Hooks, Action))
        ensures
            (r.0@, r.1@) == hooks_start(args.force, store@),
    {
        let mut m = Hooks {
            force: args.force,
            store: String::from_str(store),
            root: String::new(),
            phase: HooksPhase::Toplevel,
        };
        if !check_store_name(store) {
            m.phase = HooksPhase::Over;
            return (m, fail(Fault::InvalidStoreName));
        }
        let a = git_here(&["rev-parse", "--show-toplevel"]);
        proof {
            assert(a@->args =~= seq!["rev-parse"@, "--show-toplevel"@]);
        }
        (m, a)
    }

    fn hooks_dir(&self) -> (r: String)
        ensures
            r@ == hooks_dir_of(self.root@),
    {
        let mut r = String::from_str(self.root.as_str());
        r.append("/.git/hooks");
        r
    }

    fn hook_path(&self, h: Hook) -> (r: String)
        ensures
            r@ == hook_path_of(self.root@, h),
    {
        let mut r = self.hooks_dir();
        match h {
            Hook::PostCommit => r.append("/post-commit"),
            Hook::PrePush => r.append("/pre-push"),
        }
        r
    }

    fn go(&mut self, p: HooksPhase, a: Action) -> (r: Action)
        ensures
            (final(self)@, r@) == hooks_to(old(self)@, p, a@),
    {
        self.phase = p;
        a
    }

    fn stop(&mut self, o: Outcome) -> (r: Action)
        ensures
            (final(self)@, r@) == hooks_stop(old(self)@, o),
    {
        self.phase = HooksPhase::Over;
        Action::Finish(o)
    }

    fn install(&mut self, h: Hook) -> (r: Action)
        ensures
            (final(self)@, r@) == install(old(self)@, h),
    {
        let a = Action::WriteFile {
            path: self.hook_path(h),
            text: hook_script_for(self.store.as_str(), h),
        };
        self.go(HooksPhase::Write(h), a)
    }

    fn after(&mut self, h: Hook) -> (r: Action)
        ensures
            (final(self)@, r@) == after(old(self)@, h),
    {
        match h {
            Hook::PostCommit => {
                let a = Action::Exists(self.hook_path(Hook::PrePush));
                self.go(HooksPhase::Probe(Hook::PrePush), a)
            },
            Hook::PrePush => self.stop(Outcome::Done),
        }
    }

    /// Takes the result of the last action and gives the next one.
    pub fn next(&mut self, e: Event) -> (a: Action)
        requires
            old(self)@.phase != HooksPhase::Over,
        ensures
            (final(self)@, a@) == hooks_next(old(self)@, e@),
    {
        match self.phase {
            HooksPhase::Toplevel => match e.printed() {
                Some(root) => {
                    self.root = root;
                    let a = git_here(&["rev-parse", "--is-inside-work-tree"]);
                    proof {
                        assert(a@->args =~= seq!["rev-parse"@, "--is-inside-work-tree"@]);
                    }
                    self.go(HooksPhase::Inside, a)
                },
                None => self.stop(Outcome::Failed(e.root_fault())),
            },
            HooksPhase::Inside => {
                if e.ran_ok() {
                    let a = Action::MakeDir(self.hooks_dir());
                    self.go(HooksPhase::MakeHooks, a)
                } else {
                    self.stop(Outcome::Failed(e.root_fault()))
                }
            },
            HooksPhase::MakeHooks => {
                if let Event::Done = e {
                    let a = Action::Exists(self.hook_path(Hook::PostCommit));
                    self.go(HooksPhase::Probe(Hook::PostCommit), a)
                } else {
                    self.stop(Outcome::Failed(Fault::FileOperationFailed))
                }
            },
            HooksPhase::Probe(h) => {
                if self.force {
                    self.install(h)
                } else if let Event::Yes = e {
                    self.go(HooksPhase::Confirm(h), Action::Ask(Question::OverwriteHook(h)))
                } else {
                    self.go(HooksPhase::Confirm(h), Action::Ask(Question::InstallHook(h)))
                }
            },
            HooksPhase::Confirm(h) => {
                if let Event::Yes = e {
                    self.install(h)
                } else {
                    self.after(h)
                }
            },
            HooksPhase::Write(h) => {
                if let Event::Done = e {
                    let a = Action::MakeExecutable(self.hook_path(h));
                    self.go(HooksPhase::Chmod(h), a)
                } else {
                    self.stop(Outcome::Failed(Fault::FileOperationFailed))
                }
            },
            HooksPhase::Chmod(h) => self.after(h),
            HooksPhase::Over => self.stop(Outcome::Done),
        }
    }
}

} // verus!
