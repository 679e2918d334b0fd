use backup_rotation::action::{Action, ActionType};
use backup_rotation::file::File;
use backup_rotation::plan::create_plan;
use backup_rotation::planexecutor::{ArtifactStore, Executor, FsExecutor, MockExecutor, PlanExecutor};
use backup_rotation::planner::{Plan, Planner};
use backup_rotation::timestamp::Timestamp;
use chrono::{TimeZone, Utc};

fn test_file(name: &str, days: usize) -> File {
    let t = Utc.with_ymd_and_hms(2024, 1, 1, 0, 0, 0).unwrap() + chrono::Duration::days(days as i64);
    File::new(name.to_string(), Timestamp::from_unix(t.timestamp(), t.timestamp_subsec_nanos()).unwrap())
}

fn paths(actions: &[Action]) -> Vec<String> {
    actions.iter().map(|a| a.file.path.clone()).collect()
}

struct MemStore {
    present: Vec<String>,
    removed: Vec<String>,
}

impl ArtifactStore for MemStore {
    fn contains(&self, path: &String) -> bool {
        self.present.contains(path)
    }

    fn remove(&mut self, path: &String) {
        assert!(self.present.contains(path), "removal of a missing file: {}", path);
        self.present.retain(|p| p != path);
        self.removed.push(path.clone());
    }
}

#[test]
fn test_plan() {
    let before = vec![
        test_file("a", 1),
        test_file("b", 2),
        test_file("c", 3),
        test_file("d", 4),
    ];
    let after = vec![
        test_file("b", 2),
        test_file("c", 3),
    ];
    let plan = create_plan(&before, &after);
    assert_eq!(plan.len(), 2, "Expected 2 actions, got {}", plan.len());
    assert_eq!(plan[0].type_, ActionType::Remove);
    assert_eq!(plan[0].file.path, "a");
    assert_eq!(plan[1].type_, ActionType::Remove);
    assert_eq!(plan[1].file.path, "d");
}

#[test]
fn plan_matches_by_path_only() {
    let before = vec![test_file("a", 1), test_file("b", 2)];
    let after = vec![test_file("a", 9)];
    let plan = create_plan(&before, &after);
    assert_eq!(paths(&plan), vec!["b"]);
}

#[test]
fn plan_with_nothing_kept_removes_all_in_order() {
    let before = vec![test_file("z", 3), test_file("x", 1), test_file("y", 2)];
    let plan = create_plan(&before, &vec![]);
    assert_eq!(paths(&plan), vec!["z", "x", "y"]);
    assert!(create_plan(&vec![], &before).is_empty());
}

#[test]
fn replanning_after_removal_is_empty() {
    let before = vec![test_file("a", 1), test_file("b", 2), test_file("c", 3), test_file("d", 4)];
    let after = vec![test_file("b", 2), test_file("c", 3)];
    let plan = create_plan(&before, &after);
    let removed = paths(&plan);
    let left: Vec<File> = before.iter().filter(|f| !removed.contains(&f.path)).cloned().collect();
    assert_eq!(left.len(), 2);
    assert!(create_plan(&left, &after).is_empty());
}

#[test]
fn planner_plan_yields_actions_in_order() {
    let before = vec![test_file("a", 1), test_file("b", 2), test_file("c", 3), test_file("d", 4)];
    let after = vec![test_file("c", 3)];
    let planner = Planner::new(before, after);
    let mut plan = planner.plan();
    assert_eq!(plan.len(), 3);
    let mut order = vec![];
    while let Some(action) = plan.next() {
        assert_eq!(action.type_, ActionType::Remove);
        order.push(action.file.path);
    }
    assert_eq!(order, vec!["a", "b", "d"]);
    assert!(plan.next().is_none());
}

#[test]
fn plan_push_keeps_order() {
    let mut plan = Plan::new();
    plan.push(Action::new(ActionType::Remove, test_file("first", 1)));
    plan.push(Action::new(ActionType::Remove, test_file("second", 2)));
    assert_eq!(plan.next().unwrap().file.path, "first");
    assert_eq!(plan.next().unwrap().file.path, "second");
    assert!(plan.next().is_none());
}

#[test]
fn plan_executor_hands_over_in_order() {
    let before = vec![test_file("a", 1), test_file("b", 2), test_file("c", 3), test_file("d", 4)];
    let after = vec![test_file("b", 2)];
    let plan = Planner::new(before, after).plan();
    let mut executor = PlanExecutor::new(MockExecutor::new());
    executor.execute(plan);
    executor.execute(Plan::new());
    let mut second = Plan::new();
    second.push(Action::new(ActionType::Remove, test_file("e", 5)));
    executor.execute(second);
    assert_eq!(paths(executor.executor().actions()), vec!["a", "c", "d", "e"]);
}

#[test]
fn fs_executor_removes_only_existing_files() {
    let store = MemStore { present: vec!["/backups/a.tar".to_string(), "/backups/c.tar".to_string()], removed: vec![] };
    let mut fs = FsExecutor::new(store);
    let action = Action::new(ActionType::Remove, test_file("/backups/a.tar", 1));
    assert_eq!(fs.removal_target(&action, true), Some("/backups/a.tar".to_string()));
    assert_eq!(fs.removal_target(&action, false), None);
    fs.execute(action.clone());
    fs.execute(action);
    fs.execute(Action::new(ActionType::Remove, test_file("/backups/b.tar", 2)));
    assert_eq!(fs.store().removed, vec!["/backups/a.tar"]);
    assert_eq!(fs.store().present, vec!["/backups/c.tar"]);
}

#[test]
fn plan_executor_with_fs_executor_converges() {
    let before = vec![test_file("a", 1), test_file("b", 2), test_file("c", 3)];
    let after = vec![test_file("b", 2)];
    let store = MemStore { present: vec!["a".to_string(), "b".to_string()], removed: vec![] };
    let mut executor = PlanExecutor::new(FsExecutor::new(store));
    executor.execute(Planner::new(before.clone(), after.clone()).plan());
    executor.execute(Planner::new(before, after).plan());
    assert_eq!(executor.executor().store().removed, vec!["a"]);
    assert_eq!(executor.executor().store().present, vec!["b"]);
}
