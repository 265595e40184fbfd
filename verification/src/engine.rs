//! Drives one generation run against the outside world. The engine hands
//! out the plan's actions strictly in order; after each action the caller
//! reports whether it succeeded. The first reported failure is fatal: the
//! engine records the failing action's path and issues nothing further, and
//! nothing already performed is rolled back.

use crate::create::Action;
use crate::create::ActionView;
use vstd::prelude::*;
use vstd::string::StringExecFns;

verus! {

/// The path an action touches: the directory created, the file written, or
/// the registry file patched.
pub open spec fn spec_action_path(a: ActionView) -> Seq<char> {
    match a {
        ActionView::MakeDir(p) => p,
        ActionView::WriteFile(p, _) => p,
        ActionView::Patch(t, _) => t.spec_path(),
    }
}

impl Action {
    /// The path this action touches.
    pub fn path_string(&self) -> (r: String)
        ensures
            r@ == spec_action_path(self@),
    {
        match self {
            Action::MakeDir(p) => p.clone(),
            Action::WriteFile(p, _) => p.clone(),
            Action::Patch(t, _) => String::from_str(t.path()),
        }
    }
}

/// The state of one run: the plan, how many actions have succeeded, and the
/// path of the failed action once one has failed.
pub struct Engine {
    pub plan: Vec<Action>,
    pub next: usize,
    pub failed: Option<String>,
}

impl Engine {
    /// Well-formed: the cursor stays within the plan, and a recorded
    /// failure names the path of the action the cursor still points at.
    pub open spec fn wf(self) -> bool {
        &&& self.next <= self.plan@.len()
        &&& match self.failed {
            Some(p) => self.next < self.plan@.len() && p@ == spec_action_path(
                self.plan@[self.next as int]@,
            ),
            None => true,
        }
    }

    /// Starts a run over the given plan.
    pub fn new(plan: Vec<Action>) -> (r: Engine)
        ensures
            r.wf(),
            r.plan == plan,
            r.next == 0,
            r.failed is None,
    {
        Engine { plan, next: 0, failed: None }
    }

    /// The action to perform now: the next unperformed action, or nothing
    /// when the plan is exhausted or a failure has been recorded.
    pub fn current(&self) -> (r: Option<&Action>)
        requires
            self.wf(),
        ensures
            match r {
                Some(a) => self.failed is None && self.next < self.plan@.len() && *a
                    == self.plan@[self.next as int],
                None => self.failed is Some || self.next == self.plan@.len(),
            },
    {
        if self.failed.is_some() {
            return None;
        }
        if self.next < self.plan.len() {
            Some(&self.plan[self.next])
        } else {
            None
        }
    }

    /// Reports the outcome of the action just issued. Success advances to
    /// the next action; failure records the failing action's path, after
    /// which the engine issues nothing further.
    pub fn report(&mut self, ok: bool)
        requires
            old(self).wf(),
            old(self).failed is None,
            old(self).next < old(self).plan@.len(),
        ensures
            final(self).wf(),
            final(self).plan == old(self).plan,
            ok ==> final(self).next == old(self).next + 1 && final(self).failed is None,
            !ok ==> final(self).next == old(self).next && match final(self).failed {
                Some(p) => p@ == spec_action_path(old(self).plan@[old(self).next as int]@),
                None => false,
            },
    {
        if ok {
            let n = self.plan.len();
            assert(self.next < n);
            self.next += 1;
        } else {
            self.failed = Some(self.plan[self.next].path_string());
        }
    }

    /// Whether the whole plan was performed.
    pub fn done(&self) -> (r: bool)
        requires
            self.wf(),
        ensures
            r == (self.failed is None && self.next == self.plan@.len()),
    {
        self.failed.is_none() && self.next == self.plan.len()
    }
}

/// Law: a failure is fatal. Once the engine has recorded a failure, it
/// issues no further action — its current action is none — and the recorded
/// failure names the path of the action that failed; every action after the
/// failing one stays unperformed.
pub proof fn lemma_fatal_propagation(e: Engine)
    requires
        e.wf(),
        e.failed is Some,
    ensures
        e.next < e.plan@.len(),
        e.failed->Some_0@ == spec_action_path(e.plan@[e.next as int]@),
{
}

} // verus!
