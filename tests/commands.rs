use std::collections::{BTreeMap, BTreeSet};

use git_trunk::checkout::{Checkout, CheckoutArgs};
use git_trunk::commit::{Commit, CommitArgs};
use git_trunk::delete::{Delete, DeleteArgs};
use git_trunk::hooks::{Hooks, HooksArgs};
use git_trunk::info::{Info, InfoArgs, RemoteState, StoreReport, WorkStatus};
use git_trunk::init::{Init, InitArgs};
use git_trunk::protocol::{
    exit_status, Action, Event, Fault, GitReply, Hook, Outcome, Question, Removal,
};
use git_trunk::push::{Push, PushArgs};
use git_trunk::stegano::{Stegano, SteganoArgs};

#[derive(Default)]
struct Repo {
    refs: BTreeMap<String, String>,
    dirty: bool,
    staged: bool,
}

/// An in-memory stand-in for Git, the file system and the user.
#[derive(Default)]
struct Host {
    root: String,
    dirs: BTreeSet<String>,
    files: BTreeMap<String, String>,
    repos: BTreeMap<String, Repo>,
    answers: Vec<bool>,
    asked: Vec<Question>,
    shown: Vec<StoreReport>,
    commands: Vec<String>,
    counter: u32,
}

fn full_ref(r: &str) -> String {
    if r.starts_with("refs/") {
        r.to_string()
    } else {
        format!("refs/heads/{}", r)
    }
}

fn ok(stdout: &str) -> Event {
    Event::Git(GitReply::Exited { success: true, stdout: stdout.to_string() })
}

fn failed() -> Event {
    Event::Git(GitReply::Exited { success: false, stdout: String::new() })
}

impl Host {
    fn new(root: &str) -> Host {
        let mut h = Host { root: root.to_string(), ..Host::default() };
        h.add_clone(root);
        h.repos.insert("origin".to_string(), Repo::default());
        h
    }

    fn add_clone(&mut self, root: &str) {
        self.dirs.insert(root.to_string());
        self.repos.insert(root.to_string(), Repo::default());
    }

    fn ref_of(&self, repo: &str, r: &str) -> Option<String> {
        self.repos.get(repo).and_then(|x| x.refs.get(&full_ref(r)).cloned())
    }

    fn git(&mut self, dir: Option<String>, args: Vec<String>) -> Event {
        let dir = dir.unwrap_or_else(|| self.root.clone());
        self.commands.push(format!("{}: git {}", dir, args.join(" ")));
        let a: Vec<&str> = args.iter().map(|s| s.as_str()).collect();
        match a.as_slice() {
            ["rev-parse", "--is-inside-work-tree"] => ok("true\n"),
            ["rev-parse", "--show-toplevel"] => ok(&format!("{}\n", self.root)),
            ["rev-parse", "--verify", r] | ["rev-parse", r] | ["show-ref", "--quiet", r] => {
                match self.ref_of(&dir, r) {
                    Some(h) => ok(&format!("{}\n", h)),
                    None => failed(),
                }
            },
            ["init", ..] => {
                let dirty = self.files.keys().any(|f| f.starts_with(&format!("{}/", dir)));
                self.repos.insert(dir.clone(), Repo { dirty, ..Repo::default() });
                ok("")
            },
            ["add", "-A"] => {
                let r = self.repos.get_mut(&dir).unwrap();
                r.staged = r.dirty;
                ok("")
            },
            ["commit", "-m", _] => {
                self.counter += 1;
                let hash = format!("{:040x}", self.counter);
                let r = self.repos.get_mut(&dir).unwrap();
                if !r.staged {
                    self.counter -= 1;
                    return failed();
                }
                r.refs.insert("refs/heads/main".to_string(), hash);
                r.staged = false;
                r.dirty = false;
                ok("")
            },
            ["status", "--porcelain"] => {
                if self.repos[&dir].dirty {
                    ok(" M readme.md\n")
                } else {
                    ok("")
                }
            },
            ["fetch", src, spec] => {
                let (from, to) = spec.split_once(':').unwrap();
                match self.ref_of(src, from) {
                    Some(h) => {
                        self.repos.get_mut(&dir).unwrap().refs.insert(full_ref(to), h);
                        ok("")
                    },
                    None => failed(),
                }
            },
            ["update-ref", "-d", r] => {
                match self.repos.get_mut(&dir).unwrap().refs.remove(&full_ref(r)) {
                    Some(_) => ok(""),
                    None => failed(),
                }
            },
            ["update-ref", r, h] => {
                self.repos.get_mut(&dir).unwrap().refs.insert(full_ref(r), h.to_string());
                ok("")
            },
            ["branch", "-D", b] => {
                match self.repos.get_mut(&dir).unwrap().refs.remove(&full_ref(b)) {
                    Some(_) => ok(""),
                    None => failed(),
                }
            },
            ["reset", "--hard", h] => {
                let r = self.repos.get_mut(&dir).unwrap();
                r.refs.insert("refs/heads/main".to_string(), h.to_string());
                r.dirty = false;
                ok("")
            },
            ["checkout", b] => {
                if self.ref_of(&dir, b).is_some() {
                    ok("")
                } else {
                    failed()
                }
            },
            ["push", remote, spec] => {
                let (from, to) = spec.split_once(':').unwrap();
                if from.is_empty() {
                    self.repos.get_mut(*remote).unwrap().refs.remove(to);
                    return ok("");
                }
                match self.ref_of(&dir, from) {
                    Some(h) => {
                        self.repos.get_mut(*remote).unwrap().refs.insert(to.to_string(), h);
                        ok("")
                    },
                    None => failed(),
                }
            },
            ["ls-remote", "--refs", remote, pattern] | ["ls-remote", remote, pattern] => {
                let prefix = pattern.trim_end_matches('*');
                let exact = !pattern.ends_with('*');
                let mut out = String::new();
                for (r, h) in &self.repos[*remote].refs {
                    if (exact && r == pattern) || (!exact && r.starts_with(prefix)) {
                        out.push_str(&format!("{}\t{}\n", h, r));
                    }
                }
                ok(&out)
            },
            ["for-each-ref", _, prefix] => {
                let mut out = String::new();
                for r in self.repos[&dir].refs.keys() {
                    if r.starts_with(prefix) {
                        out.push_str(&format!("{}\n", r.trim_start_matches("refs/")));
                    }
                }
                ok(&out)
            },
            ["log", "-1", _, rev] => match self.ref_of(&dir, rev) {
                Some(h) => ok(&format!("{}\n1700000000", &h[..7])),
                None if *rev == "HEAD" => match self.ref_of(&dir, "main") {
                    Some(h) => ok(&format!("{}\n1700000000", &h[..7])),
                    None => failed(),
                },
                None => failed(),
            },
            _ => panic!("unexpected command {:?}", a),
        }
    }

    fn under(&self, path: &str) -> bool {
        let p = format!("{}/", path);
        self.dirs.iter().any(|d| d.starts_with(&p)) || self.files.keys().any(|f| f.starts_with(&p))
    }

    fn perform(&mut self, a: Action) -> Result<Event, Outcome> {
        Ok(match a {
            Action::Git { dir, args } => self.git(dir, args),
            Action::Exists(p) => {
                if self.dirs.contains(&p) || self.files.contains_key(&p) || self.repos.contains_key(&p.trim_end_matches("/.git").to_string()) && p.ends_with("/.git") {
                    Event::Yes
                } else {
                    Event::No
                }
            },
            Action::IsEmptyDir(p) => {
                if self.under(&p) {
                    Event::No
                } else {
                    Event::Yes
                }
            },
            Action::MakeDir(p) => {
                let mut cur = String::new();
                for part in p.split('/').filter(|s| !s.is_empty()) {
                    cur = format!("{}/{}", cur, part);
                    self.dirs.insert(cur.clone());
                }
                Event::Done
            },
            Action::RemoveTree(p) => {
                let pre = format!("{}/", p);
                self.dirs.retain(|d| d != &p && !d.starts_with(&pre));
                self.files.retain(|f, _| !f.starts_with(&pre));
                self.repos.remove(&p);
                Event::Done
            },
            Action::RemoveDir(p) => {
                self.dirs.remove(&p);
                Event::Done
            },
            Action::ReadFile(p) => Event::Text(self.files.get(&p).cloned()),
            Action::WriteFile { path, text } => {
                for (dir, repo) in self.repos.iter_mut() {
                    if path.starts_with(&format!("{}/", dir)) && dir.contains("/.trunk/") {
                        repo.dirty = true;
                    }
                }
                self.files.insert(path, text);
                Event::Done
            },
            Action::MakeExecutable(_) => Event::Done,
            Action::ListDirs(p) => {
                let pre = format!("{}/", p);
                let names: Vec<String> = self
                    .dirs
                    .iter()
                    .filter_map(|d| d.strip_prefix(&pre))
                    .filter(|n| !n.contains('/'))
                    .map(|n| n.to_string())
                    .collect();
                Event::Names(names)
            },
            Action::Ask(q) => {
                self.asked.push(q);
                if self.answers.is_empty() {
                    Event::No
                } else if self.answers.remove(0) {
                    Event::Yes
                } else {
                    Event::No
                }
            },
            Action::Show(r) => {
                self.shown.push(r);
                Event::Done
            },
            Action::Finish(o) => return Err(o),
        })
    }

    fn drive<M>(&mut self, start: (M, Action), next: fn(&mut M, Event) -> Action) -> Outcome {
        let (mut m, mut a) = start;
        loop {
            match self.perform(a) {
                Ok(e) => a = next(&mut m, e),
                Err(o) => return o,
            }
        }
    }

    fn init(&mut self, store: &str, force: bool) -> Outcome {
        self.drive(Init::start(&InitArgs { force }, store), Init::next)
    }

    fn commit(&mut self, store: &str, force: bool) -> Outcome {
        self.drive(Commit::start(&CommitArgs { force, message: None }, store), Commit::next)
    }

    fn push(&mut self, store: &str) -> Outcome {
        self.drive(Push::start(&PushArgs {}, "origin", store), Push::next)
    }

    fn checkout(&mut self, store: &str, force: bool) -> Outcome {
        self.drive(Checkout::start(&CheckoutArgs { force }, "origin", store), Checkout::next)
    }

    fn delete(&mut self, store: &str) -> Outcome {
        self.drive(Delete::start(&DeleteArgs {}, "origin", store), Delete::next)
    }

    fn stegano(&mut self, store: &str) -> Outcome {
        self.drive(Stegano::start(&SteganoArgs {}, store), Stegano::next)
    }

    fn hooks(&mut self, store: &str, force: bool) -> Outcome {
        self.drive(Hooks::start(&HooksArgs { force }, store), Hooks::next)
    }

    fn info(&mut self, store: &str, all: bool) -> Outcome {
        self.drive(Info::start(&InfoArgs { all }, "origin", store), Info::next)
    }
}

#[test]
fn init_commit_push_checkout_round_trip() {
    let mut h = Host::new("/one");
    assert_eq!(h.init("main", false), Outcome::Done);
    assert!(h.dirs.contains("/one/.trunk/main"));
    let first = h.ref_of("/one/.trunk/main", "main").unwrap();
    assert_eq!(h.counter, 1);
    assert_eq!(h.files["/one/.gitignore"], ".trunk\n");
    assert!(h.files["/one/.trunk/main/readme.md"].starts_with("# Trunk Documents for Store: main\n"));

    assert_eq!(h.commit("main", false), Outcome::Done);
    assert!(h.asked.is_empty());
    assert_eq!(h.ref_of("/one", "refs/trunk/main"), Some(first.clone()));
    assert_eq!(h.ref_of("/one", "trunk-temp-main"), None);

    assert_eq!(h.push("main"), Outcome::Done);
    assert_eq!(h.ref_of("origin", "refs/trunk/main"), Some(first.clone()));

    h.add_clone("/two");
    h.root = "/two".to_string();
    assert_eq!(h.checkout("main", true), Outcome::Done);
    assert_eq!(h.ref_of("/two/.trunk/main", "main"), Some(first.clone()));
    assert_eq!(h.ref_of("/two/.trunk/main", "refs/temp/trunk_store_data"), None);
    assert_eq!(h.files["/two/.gitignore"], ".trunk\n");
}

#[test]
fn checkout_into_fresh_mirror_lands_on_committed_commit() {
    let mut h = Host::new("/one");
    h.init("blog", false);
    h.files.insert("/one/.trunk/blog/post.md".to_string(), "hello".to_string());
    h.repos.get_mut("/one/.trunk/blog").unwrap().dirty = true;
    assert_eq!(h.commit("blog", true), Outcome::Done);
    let committed = h.ref_of("/one", "refs/trunk/blog").unwrap();
    assert_eq!(h.ref_of("/one/.trunk/blog", "main"), Some(committed.clone()));
    h.dirs.retain(|d| !d.starts_with("/one/.trunk/blog"));
    h.repos.remove("/one/.trunk/blog");
    assert_eq!(h.checkout("blog", false), Outcome::Done);
    assert_eq!(h.ref_of("/one/.trunk/blog", "main"), Some(committed));
}

#[test]
fn commit_without_changes_keeps_ref() {
    let mut h = Host::new("/r");
    h.init("main", false);
    h.commit("main", false);
    let before = h.ref_of("/r", "refs/trunk/main");
    let ran_before = h.commands.len();
    let outcome = h.commit("main", false);
    assert_eq!(outcome, Outcome::Done);
    assert_eq!(exit_status(outcome), 0);
    assert_eq!(h.ref_of("/r", "refs/trunk/main"), before);
    assert!(h.commands[ran_before..].iter().all(|c| !c.contains("git add") && !c.contains("git commit")));
    assert!(h.asked.is_empty());
    assert_eq!(h.counter, 1);
}

#[test]
fn commit_with_changes_asks_and_can_be_declined() {
    let mut h = Host::new("/r");
    h.init("main", false);
    h.repos.get_mut("/r/.trunk/main").unwrap().dirty = true;
    let outcome = h.commit("main", false);
    assert_eq!(outcome, Outcome::Declined);
    assert_eq!(exit_status(outcome), 0);
    assert_eq!(h.asked, vec![Question::StageAll]);
    assert_eq!(h.ref_of("/r", "refs/trunk/main"), None);
}

#[test]
fn commit_with_changes_and_yes_records_new_commit() {
    let mut h = Host::new("/r");
    h.init("main", false);
    h.repos.get_mut("/r/.trunk/main").unwrap().dirty = true;
    h.answers = vec![true];
    assert_eq!(h.commit("main", false), Outcome::Done);
    assert_eq!(h.counter, 2);
    assert_eq!(h.ref_of("/r", "refs/trunk/main"), h.ref_of("/r/.trunk/main", "main"));
}

#[test]
fn commit_needs_mirror() {
    let mut h = Host::new("/r");
    let outcome = h.commit("main", false);
    assert_eq!(outcome, Outcome::Failed(Fault::MirrorMissing));
    assert_eq!(exit_status(outcome), 1);
}

#[test]
fn init_twice_is_a_no_op() {
    let mut h = Host::new("/r");
    h.init("main", false);
    assert_eq!(h.init("main", false), Outcome::AlreadyInitialized);
    assert_eq!(h.counter, 1);
    assert_eq!(h.files["/r/.gitignore"], ".trunk\n");
}

#[test]
fn init_force_starts_over() {
    let mut h = Host::new("/r");
    h.init("main", false);
    assert_eq!(h.init("main", true), Outcome::Done);
    assert_eq!(h.counter, 2);
}

#[test]
fn init_keeps_existing_ignore_lines() {
    let mut h = Host::new("/r");
    h.files.insert("/r/.gitignore".to_string(), "target".to_string());
    h.init("main", false);
    assert_eq!(h.files["/r/.gitignore"], "target\n.trunk\n");
}

#[test]
fn bad_store_name_is_refused() {
    let mut h = Host::new("/r");
    assert_eq!(h.init("../x", false), Outcome::Failed(Fault::InvalidStoreName));
    assert_eq!(h.push("a/b"), Outcome::Failed(Fault::InvalidStoreName));
    assert!(h.commands.is_empty());
}

#[test]
fn push_needs_local_ref() {
    let mut h = Host::new("/r");
    assert_eq!(h.push("main"), Outcome::Failed(Fault::RefMissing));
}

#[test]
fn checkout_needs_ref_somewhere() {
    let mut h = Host::new("/r");
    assert_eq!(h.checkout("main", false), Outcome::Failed(Fault::RefNotOnRemote));
}

#[test]
fn checkout_over_existing_mirror_asks() {
    let mut h = Host::new("/r");
    h.init("main", false);
    h.commit("main", false);
    assert_eq!(h.checkout("main", false), Outcome::Declined);
    assert_eq!(h.asked, vec![Question::OverwriteMirror]);
}

#[test]
fn tool_missing_is_reported() {
    let mut m = Push::start(&PushArgs {}, "origin", "main").0;
    let a = m.next(Event::Git(GitReply::Missing));
    assert!(matches!(a, Action::Finish(Outcome::Failed(Fault::ToolNotFound))));
}

#[test]
fn outside_repository_is_reported() {
    let mut m = Init::start(&InitArgs { force: false }, "main").0;
    let a = m.next(failed());
    assert!(matches!(a, Action::Finish(Outcome::Failed(Fault::NotInRepository))));
    let mut c = Commit::start(&CommitArgs { force: false, message: None }, "main").0;
    let a = c.next(ok("  \n"));
    assert!(matches!(a, Action::Finish(Outcome::Failed(Fault::NotInRepository))));
}

#[test]
fn commit_without_main_commit_fails() {
    let mut m = Commit::start(&CommitArgs { force: true, message: None }, "main").0;
    assert!(matches!(m.next(ok("/r\n")), Action::Exists(_)));
    assert!(matches!(m.next(Event::Yes), Action::Git { .. }));
    assert!(matches!(m.next(ok("")), Action::Git { .. }));
    let a = m.next(failed());
    assert!(matches!(a, Action::Finish(Outcome::Failed(Fault::NoCommit))));
}

#[test]
fn commit_uses_given_message() {
    let mut h = Host::new("/r");
    h.init("main", false);
    h.repos.get_mut("/r/.trunk/main").unwrap().dirty = true;
    let start = Commit::start(&CommitArgs { force: true, message: Some("notes".to_string()) }, "main");
    assert_eq!(h.drive(start, Commit::next), Outcome::Done);
    assert!(h.commands.iter().any(|c| c == "/r/.trunk/main: git commit -m notes"));
}

#[test]
fn delete_declined_touches_nothing() {
    let mut h = Host::new("/r");
    h.init("main", false);
    h.commit("main", false);
    h.push("main");
    let commands = h.commands.len();
    let outcome = h.delete("main");
    assert_eq!(outcome, Outcome::Declined);
    assert_eq!(exit_status(outcome), 0);
    assert_eq!(h.commands.len(), commands);
    assert!(h.dirs.contains("/r/.trunk/main"));
    assert!(h.ref_of("/r", "refs/trunk/main").is_some());
    assert!(h.ref_of("origin", "refs/trunk/main").is_some());
}

#[test]
fn delete_of_nothing_reports_nothing_removed() {
    let mut h = Host::new("/r");
    h.answers = vec![true];
    let outcome = h.delete("ghost");
    assert_eq!(
        outcome,
        Outcome::Deleted { mirror: Removal::Absent, local_ref: Removal::Absent, remote_ref: Removal::Absent }
    );
    assert_eq!(exit_status(outcome), 0);
}

#[test]
fn delete_removes_all_three() {
    let mut h = Host::new("/r");
    h.init("main", false);
    h.commit("main", false);
    h.push("main");
    h.answers = vec![true];
    assert_eq!(
        h.delete("main"),
        Outcome::Deleted { mirror: Removal::Removed, local_ref: Removal::Removed, remote_ref: Removal::Removed }
    );
    assert!(!h.dirs.contains("/r/.trunk/main"));
    assert!(!h.dirs.contains("/r/.trunk"));
    assert_eq!(h.ref_of("/r", "refs/trunk/main"), None);
    assert_eq!(h.ref_of("origin", "refs/trunk/main"), None);
    assert_eq!(h.files["/r/.gitignore"], ".trunk\n");
}

#[test]
fn stegano_removes_local_traces_only() {
    let mut h = Host::new("/r");
    h.files.insert("/r/.gitignore".to_string(), "target\n".to_string());
    h.init("main", false);
    h.commit("main", false);
    assert_eq!(h.stegano("main"), Outcome::Done);
    assert!(!h.dirs.contains("/r/.trunk/main"));
    assert!(!h.dirs.contains("/r/.trunk"));
    assert_eq!(h.files["/r/.gitignore"], "target\n");
    assert!(h.ref_of("/r", "refs/trunk/main").is_some());
}

#[test]
fn stegano_keeps_entry_while_other_stores_remain() {
    let mut h = Host::new("/r");
    h.init("main", false);
    h.init("blog", false);
    assert_eq!(h.stegano("main"), Outcome::Done);
    assert!(h.dirs.contains("/r/.trunk/blog"));
    assert_eq!(h.files["/r/.gitignore"], ".trunk\n");
}

#[test]
fn hooks_with_force_install_both_without_asking() {
    let mut h = Host::new("/r");
    assert_eq!(h.hooks("docs", true), Outcome::Done);
    assert!(h.asked.is_empty());
    let post = &h.files["/r/.git/hooks/post-commit"];
    assert!(post.starts_with("#!/bin/sh\n"));
    assert!(post.contains("git trunk commit --force --store docs\n"));
    let pre = &h.files["/r/.git/hooks/pre-push"];
    assert!(pre.contains("git push \"$remote_name\" refs/trunk/docs:refs/trunk/docs\n"));
}

#[test]
fn hooks_declined_change_nothing() {
    let mut h = Host::new("/r");
    assert_eq!(h.hooks("main", false), Outcome::Done);
    assert_eq!(
        h.asked,
        vec![Question::InstallHook(Hook::PostCommit), Question::InstallHook(Hook::PrePush)]
    );
    assert!(!h.files.contains_key("/r/.git/hooks/post-commit"));
    assert!(!h.files.contains_key("/r/.git/hooks/pre-push"));
}

#[test]
fn info_reports_local_stores() {
    let mut h = Host::new("/r");
    h.init("main", false);
    h.commit("main", false);
    h.push("main");
    h.init("blog", false);
    assert_eq!(h.info("main", false), Outcome::Done);
    let names: Vec<&str> = h.shown.iter().map(|r| r.name.as_str()).collect();
    assert_eq!(names, vec!["blog", "main"]);
    let main = &h.shown[1];
    assert!(main.mirror_exists && main.mirror_is_repo && main.ref_exists);
    assert_eq!(main.mirror_status, Some(WorkStatus::Clean));
    assert_eq!(main.ref_commit.as_ref().unwrap().hash.len(), 7);
    assert!(matches!(&main.remote, RemoteState::Present(Some(x)) if x.len() == 7));
    let blog = &h.shown[0];
    assert!(!blog.ref_exists);
    assert!(matches!(blog.remote, RemoteState::Absent));
}

#[test]
fn info_all_lists_remote_stores() {
    let mut h = Host::new("/r");
    h.init("zeta", false);
    h.commit("zeta", false);
    h.push("zeta");
    assert_eq!(h.info("main", true), Outcome::Done);
    let names: Vec<&str> = h.shown.iter().map(|r| r.name.as_str()).collect();
    assert_eq!(names, vec!["zeta"]);
}

#[test]
fn info_all_with_empty_remote_finds_nothing() {
    let mut h = Host::new("/r");
    assert_eq!(h.info("main", true), Outcome::NothingFound);
}

#[test]
fn info_on_named_store() {
    let mut h = Host::new("/r");
    assert_eq!(h.info("notes", false), Outcome::Done);
    assert_eq!(h.shown.len(), 1);
    assert_eq!(h.shown[0].name, "notes");
    assert!(!h.shown[0].mirror_exists);
}

#[test]
fn checkout_reports_ref_missing_after_fetch() {
    let mut m = Checkout::start(&CheckoutArgs { force: true }, "origin", "main").0;
    assert!(matches!(m.next(ok("/r\n")), Action::Git { .. }));
    assert!(matches!(m.next(failed()), Action::Git { .. }));
    assert!(matches!(m.next(ok("abc\trefs/trunk/main\n")), Action::Git { .. }));
    assert!(matches!(m.next(ok("")), Action::Git { .. }));
    let a = m.next(failed());
    assert!(matches!(a, Action::Finish(Outcome::Failed(Fault::RefMissingAfterFetch))));
}

#[test]
fn failed_push_is_a_command_failure() {
    let mut m = Push::start(&PushArgs {}, "origin", "main").0;
    match m.next(ok("")) {
        Action::Git { dir, args } => {
            assert_eq!(dir, None);
            assert_eq!(args, vec!["push", "origin", "refs/trunk/main:refs/trunk/main"]);
        },
        _ => panic!("expected the push"),
    }
    let a = m.next(failed());
    assert!(matches!(a, Action::Finish(Outcome::Failed(Fault::CommandFailed))));
}

#[test]
fn unwritable_ignore_file_stops_init() {
    let mut m = Init::start(&InitArgs { force: false }, "main").0;
    assert!(matches!(m.next(ok("true\n")), Action::Git { .. }));
    assert!(matches!(m.next(ok("/r\n")), Action::ReadFile(_)));
    match m.next(Event::Text(None)) {
        Action::WriteFile { path, text } => {
            assert_eq!(path, "/r/.gitignore");
            assert_eq!(text, ".trunk\n");
        },
        _ => panic!("expected the ignore file to be written"),
    }
    let a = m.next(Event::Failed);
    assert!(matches!(a, Action::Finish(Outcome::Failed(Fault::FileOperationFailed))));
}

#[test]
fn delete_reports_what_could_not_be_removed() {
    let mut m = Delete::start(&DeleteArgs {}, "origin", "main").0;
    assert!(matches!(m.next(Event::Yes), Action::Git { .. }));
    assert!(matches!(m.next(ok("true\n")), Action::Git { .. }));
    assert!(matches!(m.next(ok("/r\n")), Action::Exists(_)));
    assert!(matches!(m.next(Event::Yes), Action::RemoveTree(_)));
    assert!(matches!(m.next(Event::Failed), Action::Exists(_)));
    assert!(matches!(m.next(Event::No), Action::Git { .. }));
    assert!(matches!(m.next(ok("abc\n")), Action::Git { .. }));
    assert!(matches!(m.next(failed()), Action::Git { .. }));
    assert!(matches!(m.next(ok("abc\trefs/trunk/main\n")), Action::Git { .. }));
    let a = m.next(ok(""));
    assert!(matches!(
        a,
        Action::Finish(Outcome::Deleted {
            mirror: Removal::Kept,
            local_ref: Removal::Kept,
            remote_ref: Removal::Removed
        })
    ));
}

#[test]
fn info_counts_changes_and_marks_unknown_remote() {
    let mut m = Info::start(&InfoArgs { all: false }, "origin", "notes").0;
    assert!(matches!(m.next(ok("/r\n")), Action::Exists(_)));
    assert!(matches!(m.next(Event::Yes), Action::Exists(_)));
    assert!(matches!(m.next(Event::Yes), Action::Git { .. }));
    assert!(matches!(m.next(ok("1234567\n1700000000")), Action::Git { .. }));
    assert!(matches!(m.next(ok(" M a\n?? b\n")), Action::Git { .. }));
    assert!(matches!(m.next(failed()), Action::Git { .. }));
    match m.next(Event::Git(GitReply::Unrunnable)) {
        Action::Show(r) => {
            assert_eq!(r.mirror_status, Some(WorkStatus::Changes(2)));
            assert_eq!(r.mirror_commit.as_ref().unwrap().hash, "1234567");
            assert_eq!(r.mirror_commit.as_ref().unwrap().seconds, Some(1700000000));
            assert!(!r.ref_exists);
            assert!(matches!(r.remote, RemoteState::Unknown));
        },
        _ => panic!("expected the report"),
    }
    assert!(matches!(m.next(Event::Done), Action::Finish(Outcome::Done)));
}

#[test]
fn info_marks_failed_status_unknown() {
    let mut m = Info::start(&InfoArgs { all: false }, "origin", "notes").0;
    m.next(ok("/r\n"));
    m.next(Event::Yes);
    m.next(Event::Yes);
    m.next(failed());
    m.next(failed());
    m.next(failed());
    match m.next(ok("")) {
        Action::Show(r) => {
            assert_eq!(r.mirror_status, Some(WorkStatus::Unknown));
            assert!(r.mirror_commit.is_none());
            assert!(matches!(r.remote, RemoteState::Absent));
        },
        _ => panic!("expected the report"),
    }
}
