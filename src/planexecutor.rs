use vstd::prelude::*;

use crate::action::{Action, ActionType};
use crate::planner::Plan;

verus! {

/// Carries out actions on the store of backups, one at a time.
pub trait Executor {
    /// The actions carried out so far, in order.
    spec fn performed(&self) -> Seq<Action>;

    fn execute(&mut self, action: Action)
        ensures
            final(self).performed() == old(self).performed().push(action),
    ;
}

/// Carries out every action of a plan, in order, with an executor.
pub struct PlanExecutor<E: Executor> {
    executor: E,
}

impl<E: Executor> PlanExecutor<E> {
    /// The executor that carries out the actions.
    pub closed spec fn inner(&self) -> E {
        self.executor
    }

    pub fn new(executor: E) -> (r: PlanExecutor<E>)
        ensures
            r.inner() == executor,
    {
        PlanExecutor { executor }
    }

    /// The executor that carries out the actions.
    pub fn executor(&self) -> (r: &E)
        ensures
            *r == self.inner(),
    {
        &self.executor
    }

    /// Has the executor carry out each action of `plan` once, first to last.
    pub fn execute(&mut self, plan: Plan)
        ensures
            final(self).inner().performed() == old(self).inner().performed() + plan@,
    {
        let mut remaining = plan;
        let ghost start = self.executor.performed();
        loop
            invariant
                self.executor.performed() + remaining@ == start + plan@,
                start == old(self).executor.performed(),
            ensures
                self.executor.performed() == start + plan@,
            decreases remaining@.len(),
        {
            let ghost before = remaining@;
            match remaining.next() {
                Some(action) => {
                    let ghost done = self.executor.performed();
                    self.executor.execute(action);
                    proof {
                        assert(done.push(action) + remaining@ =~= done + before);
                    }
                },
                None => {
                    proof {
                        assert(self.executor.performed() =~= self.executor.performed() + remaining@);
                    }
                    break;
                },
            }
        }
    }
}

/// An executor that changes nothing and records the actions it is given.
pub struct MockExecutor {
    actions: Vec<Action>,
}

impl MockExecutor {
    pub fn new() -> (r: MockExecutor)
        ensures
            r.performed() == Seq::<Action>::empty(),
    {
        MockExecutor { actions: Vec::new() }
    }

    /// The actions given so far, in order.
    pub fn actions(&self) -> (r: &Vec<Action>)
        ensures
            r@ == self.performed(),
    {
        &self.actions
    }
}

impl Executor for MockExecutor {
    closed spec fn performed(&self) -> Seq<Action> {
        self.actions@
    }

    fn execute(&mut self, action: Action) {
        self.actions.push(action);
    }
}

/// Where backups are kept, such as a directory on disk.
pub trait ArtifactStore {
    /// Whether an artifact with the path exists now.
    fn contains(&self, path: &String) -> bool;

    /// Deletes the artifact with the path.
    fn remove(&mut self, path: &String);
}

/// Removes files from a store under an idempotent policy: a removal deletes
/// its file only where the file still exists, and is done otherwise, so that
/// carrying out a plan again does no harm.
pub struct FsExecutor<S: ArtifactStore> {
    store: S,
    performed: Ghost<Seq<Action>>,
}

impl<S: ArtifactStore> FsExecutor<S> {
    /// The store that files are removed from.
    pub closed spec fn store_spec(&self) -> S {
        self.store
    }

    pub fn new(store: S) -> (r: FsExecutor<S>)
        ensures
            r.store_spec() == store,
            r.performed() == Seq::<Action>::empty(),
    {
        FsExecutor { store, performed: Ghost(Seq::empty()) }
    }

    /// The store that files are removed from.
    pub fn store(&self) -> (r: &S)
        ensures
            *r == self.store_spec(),
    {
        &self.store
    }

    /// The path to delete for `action`, given whether its file exists now:
    /// the file's path where it does, nothing where it does not.
    pub fn removal_target(&self, action: &Action, target_exists: bool) -> (r: Option<String>)
        ensures
            target_exists ==> r == Some(action.file.path),
            !target_exists ==> r is None,
    {
        match action.type_ {
            ActionType::Remove => {
                if target_exists {
                    Some(action.file.path.clone())
                } else {
                    None
                }
            },
        }
    }
}

impl<S: ArtifactStore> Executor for FsExecutor<S> {
    closed spec fn performed(&self) -> Seq<Action> {
        self.performed@
    }

    fn execute(&mut self, action: Action) {
        let exists = self.store.contains(&action.file.path);
        match self.removal_target(&action, exists) {
            Some(path) => self.store.remove(&path),
            None => {},
        }
        proof {
            self.performed@ = self.performed@.push(action);
        }
    }
}

} // verus!
