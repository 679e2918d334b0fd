use vstd::prelude::*;

use std::collections::VecDeque;

use crate::action::Action;
use crate::file::File;
use crate::plan::{create_plan, removals};

verus! {

/// Compares the files that exist with those a rotation keeps.
pub struct Planner {
    before: Vec<File>,
    after: Vec<File>,
}

impl Planner {
    /// The files that exist.
    pub closed spec fn before(&self) -> Seq<File> {
        self.before@
    }

    /// The files to keep.
    pub closed spec fn after(&self) -> Seq<File> {
        self.after@
    }

    pub fn new(before: Vec<File>, after: Vec<File>) -> (r: Planner)
        ensures
            r.before() == before@,
            r.after() == after@,
    {
        Planner { before, after }
    }

    /// One `Remove` for each existing file whose path is not among the kept
    /// ones, in the order of the existing files.
    pub fn plan(&self) -> (r: Plan)
        ensures
            r@ == removals(self.before(), self.after()),
    {
        let actions = create_plan(&self.before, &self.after);
        let mut plan = Plan::new();
        let mut i: usize = 0;
        while i < actions.len()
            invariant
                i <= actions@.len(),
                plan@ == actions@.subrange(0, i as int),
            decreases actions@.len() - i,
        {
            plan.push(actions[i].clone());
            proof {
                assert(plan@ =~= actions@.subrange(0, i + 1));
            }
            i = i + 1;
        }
        proof {
            assert(actions@.subrange(0, i as int) =~= actions@);
        }
        plan
    }
}

/// Actions to carry out once each, oldest first.
pub struct Plan {
    actions: VecDeque<Action>,
}

impl View for Plan {
    type V = Seq<Action>;

    closed spec fn view(&self) -> Seq<Action> {
        self.actions@
    }
}

impl Plan {
    /// A plan with no action.
    pub fn new() -> (r: Plan)
        ensures
            r@ == Seq::<Action>::empty(),
    {
        let r = Plan { actions: VecDeque::new() };
        assert(r@ =~= Seq::<Action>::empty());
        r
    }

    /// Appends an action after those already planned.
    pub fn push(&mut self, filemod: Action)
        ensures
            final(self)@ == old(self)@.push(filemod),
    {
        self.actions.push_back(filemod);
    }

    /// Number of actions still planned.
    pub fn len(&self) -> (r: usize)
        ensures
            r == self@.len(),
    {
        self.actions.len()
    }

    /// Takes the first action still planned; `None` once all are taken.
    pub fn next(&mut self) -> (r: Option<Action>)
        ensures
            old(self)@.len() == 0 ==> r is None && final(self)@ == old(self)@,
            old(self)@.len() > 0 ==> r == Some(old(self)@[0]) && final(self)@ == old(self)@.drop_first(),
    {
        let r = self.actions.pop_front();
        proof {
            if old(self)@.len() > 0 {
                assert(final(self)@ =~= old(self)@.drop_first());
            }
        }
        r
    }
}

} // verus!
