use vstd::prelude::*;

use vstd::hash_set::StringHashSet;

use crate::action::{Action, ActionType};
use crate::file::File;

verus! {

/// Some file of `files` has the path `path`.
pub open spec fn has_path(files: Seq<File>, path: Seq<char>) -> bool {
    exists|j: int| 0 <= j < files.len() && (#[trigger] files[j]).path@ == path
}

/// The action that removes `f`.
pub open spec fn removal_of(f: File) -> Action {
    Action { type_: ActionType::Remove, file: f }
}

/// One removal for each file of `before` whose path no file of `after` has,
/// in the order of `before`.
pub open spec fn removals(before: Seq<File>, after: Seq<File>) -> Seq<Action>
    decreases before.len(),
{
    if before.len() == 0 {
        Seq::empty()
    } else {
        let rest = removals(before.drop_last(), after);
        if has_path(after, before.last().path@) {
            rest
        } else {
            rest.push(removal_of(before.last()))
        }
    }
}

/// The set of paths of `files`.
pub open spec fn paths_of(files: Seq<File>) -> Set<Seq<char>> {
    Set::new(|p: Seq<char>| has_path(files, p))
}

/// The removals that take the files of `before` to those of `after`: one
/// `Remove` for each file of `before` whose path is not among those of
/// `after`, in the order of `before`. Files are told apart by path alone.
pub fn create_plan(before: &Vec<File>, after: &Vec<File>) -> (r: Vec<Action>)
    ensures
        r@ == removals(before@, after@),
{
    let mut plan: Vec<Action> = Vec::new();
    let mut seen = StringHashSet::new();
    let mut i: usize = 0;
    while i < after.len()
        invariant
            i <= after@.len(),
            seen@ == paths_of(after@.subrange(0, i as int)),
        decreases after@.len() - i,
    {
        seen.insert(after[i].path.clone());
        proof {
            let prev = after@.subrange(0, i as int);
            let next = after@.subrange(0, i + 1);
            assert forall|p: Seq<char>| seen@.contains(p) <==> has_path(next, p) by {
                if has_path(next, p) {
                    let j = choose|j: int| 0 <= j < next.len() && (#[trigger] next[j]).path@ == p;
                    if j < i {
                        assert(prev[j] == next[j]);
                    }
                }
                if has_path(prev, p) {
                    let j = choose|j: int| 0 <= j < prev.len() && (#[trigger] prev[j]).path@ == p;
                    assert(prev[j] == next[j]);
                }
                if p == after@[i as int].path@ {
                    assert(next[i as int] == after@[i as int]);
                }
            }
            assert(seen@ =~= paths_of(next));
        }
        i = i + 1;
    }
    proof {
        assert(after@.subrange(0, i as int) =~= after@);
    }
    let mut k: usize = 0;
    while k < before.len()
        invariant
            k <= before@.len(),
            seen@ == paths_of(after@),
            plan@ == removals(before@.subrange(0, k as int), after@),
        decreases before@.len() - k,
    {
        let file = &before[k];
        proof {
            let next = before@.subrange(0, k + 1);
            assert(next.drop_last() =~= before@.subrange(0, k as int));
            assert(next.last() == before@[k as int]);
        }
        if !seen.contains(file.path.as_str()) {
            plan.push(Action { type_: ActionType::Remove, file: file.clone() });
        }
        k = k + 1;
    }
    proof {
        assert(before@.subrange(0, k as int) =~= before@);
    }
    plan
}

/// Some action of `plan` is about a file with the path `path`.
pub open spec fn targets(plan: Seq<Action>, path: Seq<char>) -> bool {
    exists|i: int| 0 <= i < plan.len() && (#[trigger] plan[i]).file.path@ == path
}

/// The files of `files` that are left once every file that `plan` targets is
/// gone, in their order.
pub open spec fn remaining_after(files: Seq<File>, plan: Seq<Action>) -> Seq<File>
    decreases files.len(),
{
    if files.len() == 0 {
        Seq::empty()
    } else {
        let rest = remaining_after(files.drop_last(), plan);
        if targets(plan, files.last().path@) {
            rest
        } else {
            rest.push(files.last())
        }
    }
}

/// Every planned action is a `Remove` of a file of `before` whose path no file
/// of `after` has: nothing kept is ever removed.
pub proof fn lemma_removals_spare_kept(before: Seq<File>, after: Seq<File>)
    ensures
        forall|i: int| 0 <= i < removals(before, after).len() ==> {
            let a = #[trigger] removals(before, after)[i];
            &&& a.type_ == ActionType::Remove
            &&& !has_path(after, a.file.path@)
            &&& before.contains(a.file)
        },
    decreases before.len(),
{
    if before.len() > 0 {
        lemma_removals_spare_kept(before.drop_last(), after);
        let rest = removals(before.drop_last(), after);
        assert forall|i: int| 0 <= i < rest.len() implies before.contains(#[trigger] rest[i].file) by {
            let j = choose|j: int| 0 <= j < before.drop_last().len() && before.drop_last()[j] == rest[i].file;
            assert(before[j] == rest[i].file);
        }
        assert(before[before.len() - 1] == before.last());
    }
}

/// A file of `before` whose path no file of `after` has is targeted by the
/// plan.
proof fn lemma_removals_cover(before: Seq<File>, after: Seq<File>, k: int)
    requires
        0 <= k < before.len(),
        !has_path(after, before[k].path@),
    ensures
        targets(removals(before, after), before[k].path@),
    decreases before.len(),
{
    let rest = removals(before.drop_last(), after);
    if k == before.len() - 1 {
        let r = rest.push(removal_of(before.last()));
        assert(r[rest.len() as int] == removal_of(before.last()));
    } else {
        assert(before.drop_last()[k] == before[k]);
        lemma_removals_cover(before.drop_last(), after, k);
        let i = choose|i: int| 0 <= i < rest.len() && (#[trigger] rest[i]).file.path@ == before[k].path@;
        if !has_path(after, before.last().path@) {
            assert(rest.push(removal_of(before.last()))[i] == rest[i]);
        }
    }
}

/// A file left by a plan keeps its path out of the plan's targets.
proof fn lemma_remaining_untargeted(files: Seq<File>, plan: Seq<Action>)
    ensures
        forall|i: int| 0 <= i < remaining_after(files, plan).len() ==> {
            let f = #[trigger] remaining_after(files, plan)[i];
            &&& !targets(plan, f.path@)
            &&& files.contains(f)
        },
    decreases files.len(),
{
    if files.len() > 0 {
        lemma_remaining_untargeted(files.drop_last(), plan);
        let rest = remaining_after(files.drop_last(), plan);
        assert forall|i: int| 0 <= i < rest.len() implies files.contains(#[trigger] rest[i]) by {
            let j = choose|j: int| 0 <= j < files.drop_last().len() && files.drop_last()[j] == rest[i];
            assert(files[j] == rest[i]);
        }
        assert(files[files.len() - 1] == files.last());
    }
}

/// Where every file of `files` has a path of `after`, no removal is planned.
proof fn lemma_no_removals_when_all_kept(files: Seq<File>, after: Seq<File>)
    requires
        forall|i: int| 0 <= i < files.len() ==> has_path(after, (#[trigger] files[i]).path@),
    ensures
        removals(files, after) == Seq::<Action>::empty(),
    decreases files.len(),
{
    if files.len() > 0 {
        assert forall|i: int| 0 <= i < files.drop_last().len() implies has_path(
            after,
            (#[trigger] files.drop_last()[i]).path@,
        ) by {
            assert(files.drop_last()[i] == files[i]);
        }
        lemma_no_removals_when_all_kept(files.drop_last(), after);
        assert(has_path(after, files[files.len() - 1].path@));
    }
}

/// Planning is idempotent: once the removals planned from `before` to
/// `after` are carried out, planning again from the files that are left to
/// the same `after` gives no action.
pub proof fn lemma_replan_is_empty(before: Seq<File>, after: Seq<File>)
    ensures
        removals(remaining_after(before, removals(before, after)), after) == Seq::<Action>::empty(),
{
    let plan = removals(before, after);
    let left = remaining_after(before, plan);
    lemma_remaining_untargeted(before, plan);
    assert forall|i: int| 0 <= i < left.len() implies has_path(after, (#[trigger] left[i]).path@) by {
        let f = left[i];
        let k = choose|k: int| 0 <= k < before.len() && before[k] == f;
        if !has_path(after, f.path@) {
            lemma_removals_cover(before, after, k);
        }
    }
    lemma_no_removals_when_all_kept(left, after);
}

} // verus!
