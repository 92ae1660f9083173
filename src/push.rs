//! `push`: send the store's ref to the same ref on a remote.
use crate::protocol::{fail, git_here, Action, ActionView, Event, EventView, Fault, Outcome, git_fault, ran, ran_ok};
use crate::store::{check_store_name, is_store_name, ref_name, ref_name_of};
use vstd::prelude::*;

verus! {

/// Options of `push`.
pub struct PushArgs {}

/// Where a run of `push` stands: what it waits for.
#[derive(PartialEq, Eq, Structural, Clone, Copy, Debug)]
pub enum PushPhase {
    /// Waiting to learn whether the ref exists locally.
    CheckRef,
    /// Waiting for the push.
    Pushing,
    /// Finished.
    Over,
}

/// A run of `push`.
pub struct Push {
    pub remote: String,
    pub store: String,
    pub phase: PushPhase,
}

/// A run of `push` as the contracts see it.
pub ghost struct PushView {
    pub remote: Seq<char>,
    pub store: Seq<char>,
    pub phase: PushPhase,
}

impl View for Push {
    type V = PushView;

    open spec fn view(&self) -> PushView {
        PushView { remote: self.remote@, store: self.store@, phase: self.phase }
    }
}

/// The explicit refspec that maps the store's ref onto itself.
pub open spec fn same_ref_spec(store: Seq<char>) -> Seq<char> {
    ref_name_of(store) + ":"@ + ref_name_of(store)
}

/// The first step of `push`: check that the ref exists locally.
pub open spec fn push_start(remote: Seq<char>, store: Seq<char>) -> (PushView, ActionView) {
    if !is_store_name(store) {
        (
            PushView { remote, store, phase: PushPhase::Over },
            ActionView::Finish(Outcome::Failed(Fault::InvalidStoreName)),
        )
    } else {
        (
            PushView { remote, store, phase: PushPhase::CheckRef },
            ActionView::Git { dir: None, args: seq!["show-ref"@, "--quiet"@, ref_name_of(store)] },
        )
    }
}

/// The step of `push` after the event `e`.
pub open spec fn push_next(m: PushView, e: EventView) -> (PushView, ActionView) {
    let over = PushView { phase: PushPhase::Over, ..m };
    match m.phase {
        PushPhase::CheckRef => if ran_ok(e) {
            (
                PushView { phase: PushPhase::Pushing, ..m },
                ActionView::Git {
                    dir: None,
                    args: seq!["push"@, m.remote, same_ref_spec(m.store)],
                },
            )
        } else if ran(e) {
            (over, ActionView::Finish(Outcome::Failed(Fault::RefMissing)))
        } else {
            (over, ActionView::Finish(Outcome::Failed(git_fault(e))))
        },
        PushPhase::Pushing => if ran_ok(e) {
            (over, ActionView::Finish(Outcome::Done))
        } else {
            (over, ActionView::Finish(Outcome::Failed(git_fault(e))))
        },
        PushPhase::Over => (over, ActionView::Finish(Outcome::Done)),
    }
}

/// The refspec `refs/trunk/<store>:refs/trunk/<store>`.
pub fn same_ref(store: &str) -> (r: String)
    ensures
        r@ == same_ref_spec(store@),
{
    let name = ref_name(store);
    let mut r = ref_name(store);
    r.append(":");
    r.append(name.as_str());
    r
}

impl Push {
    /// Starts `push` of `store` to `remote`.
    pub fn start(_args: &PushArgs, remote: &str, store: &str) -> (r: (Push, Action))
        ensures
            (r.0@, r.1@) == push_start(remote@, store@),
    {
        let remote = String::from_str(remote);
        let store = String::from_str(store);
        if !check_store_name(store.as_str()) {
            return (Push { remote, store, phase: PushPhase::Over }, fail(Fault::InvalidStoreName));
        }
        let name = ref_name(store.as_str());
        let a = git_here(&["show-ref", "--quiet", name.as_str()]);
        proof {
            assert(a@->args =~= seq!["show-ref"@, "--quiet"@, ref_name_of(store@)]);
        }
        (Push { remote, store, phase: PushPhase::CheckRef }, a)
    }

    /// Takes the result of the last action and gives the next one.
    pub fn next(&mut self, e: Event) -> (a: Action)
        requires
            old(self)@.phase != PushPhase::Over,
        ensures
            (final(self)@, a@) == push_next(old(self)@, e@),
    {
        match self.phase {
            PushPhase::CheckRef => {
                if e.ran_ok() {
                    self.phase = PushPhase::Pushing;
                    let spec = same_ref(self.store.as_str());
                    let a = git_here(&["push", self.remote.as_str(), spec.as_str()]);
                    proof {
                        assert(a@->args =~= seq!["push"@, self.remote@, same_ref_spec(self.store@)]);
                    }
                    a
                } else if e.ran() {
                    self.phase = PushPhase::Over;
                    fail(Fault::RefMissing)
                } else {
                    self.phase = PushPhase::Over;
                    fail(e.git_fault())
                }
            },
            PushPhase::Pushing => {
                self.phase = PushPhase::Over;
                if e.ran_ok() {
                    Action::Finish(Outcome::Done)
                } else {
                    fail(e.git_fault())
                }
            },
            PushPhase::Over => Action::Finish(Outcome::Done),
        }
    }
}

} // verus!
