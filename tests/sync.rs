use task2habitica::{
    habitica_to_taskwarrior, habitica_to_taskwarrior_with_id, modify_needs_sync, pairing_keys,
    tasks_are_equivalent, taskwarrior_to_habitica, update_taskwarrior_from_habitica,
    vanished_remotely, Config, ConflictResolver, HabiticaTask, HabiticaTaskType, MutationReply,
    NoteChange, PairPlan, RemoteCall, ResolutionAction, ScoreDirection, Stage, StatsCache, Task,
    TaskDifficulty, TaskStatus, TaskType, UserStats,
};

const REMOTE_ID: u128 = 0xa1a2a3a4_b1b2_c1c2_d1d2_d3d4d5d6d7d8;

fn test_tw_task() -> Task {
    Task {
        uuid: 0x1111,
        description: "Test task".to_string(),
        status: TaskStatus::Pending,
        modified: Some(1_700_000_000_000),
        due: None,
        annotations: None,
        habitica_uuid: Some(REMOTE_ID),
        habitica_difficulty: Some(TaskDifficulty::Easy),
        habitica_task_type: Some(TaskType::Todo),
        extra: Vec::new(),
    }
}

fn test_h_task() -> HabiticaTask {
    HabiticaTask {
        id: Some(REMOTE_ID),
        text: "Test task".to_string(),
        notes: String::new(),
        task_type: HabiticaTaskType::Todo,
        priority: 1000,
        completed: false,
        date: None,
        updated_at: Some(1_700_000_000_000),
        is_due: false,
    }
}

fn test_config() -> Config {
    Config {
        habitica_user_id: String::new(),
        habitica_api_key: String::new(),
        task_note_dir: "/tmp/notes".to_string(),
        task_note_prefix: "[tasknote]".to_string(),
        task_note_extension: ".txt".to_string(),
        data_location: "/tmp".to_string(),
        verbose: false,
    }
}

fn stats(hp: i64, mp: i64, exp: i64, gp: i64) -> UserStats {
    UserStats { hp, max_hp: Some(50), mp, max_mp: Some(30), exp, to_next_level: Some(100), gp, lvl: 1 }
}

#[test]
fn test_taskwarrior_to_habitica_pending() {
    let tw_task = test_tw_task();
    let h_task = taskwarrior_to_habitica(&tw_task, None).unwrap().unwrap();

    assert_eq!(h_task.text, tw_task.description);
    assert_eq!(h_task.completed, false);
    assert_eq!(h_task.priority, 1000);
}

#[test]
fn test_taskwarrior_to_habitica_completed() {
    let mut tw_task = test_tw_task();
    tw_task.status = TaskStatus::Completed;

    let h_task = taskwarrior_to_habitica(&tw_task, None).unwrap().unwrap();
    assert_eq!(h_task.completed, true);
}

#[test]
fn test_taskwarrior_to_habitica_deleted() {
    let mut tw_task = test_tw_task();
    tw_task.status = TaskStatus::Deleted;

    let result = taskwarrior_to_habitica(&tw_task, None).unwrap();
    assert!(result.is_none());
}

#[test]
fn push_conversion_carries_note_and_kind() {
    let mut tw_task = test_tw_task();
    tw_task.habitica_task_type = Some(TaskType::Habit);
    tw_task.habitica_difficulty = Some(TaskDifficulty::Hard);
    let h = taskwarrior_to_habitica(&tw_task, Some("remember")).unwrap().unwrap();
    assert_eq!(h.notes, "remember");
    assert_eq!(h.task_type, HabiticaTaskType::Todo);
    assert_eq!(h.priority, 2000);
    assert_eq!(h.id, Some(REMOTE_ID));
    assert!(!h.is_due);
}

#[test]
fn test_habitica_to_taskwarrior() {
    let h_task = test_h_task();
    let tw_task = habitica_to_taskwarrior(&h_task, None).unwrap();

    assert_eq!(tw_task.description, h_task.text);
    assert_eq!(tw_task.status, TaskStatus::Pending);
    assert_eq!(tw_task.habitica_uuid, h_task.id);
}

#[test]
fn pull_keeps_local_identity_and_waiting() {
    let mut existing = test_tw_task();
    existing.status = TaskStatus::Waiting;
    existing.extra.push(("project".to_string(), "\"home\"".to_string()));
    let mut h = test_h_task();
    h.text = "Renamed".to_string();
    h.priority = 1500;
    let t = habitica_to_taskwarrior_with_id(&h, Some(&existing), 42);
    assert_eq!(t.uuid, 0x1111);
    assert_eq!(t.status, TaskStatus::Waiting);
    assert_eq!(t.description, "Renamed");
    assert_eq!(t.habitica_difficulty, Some(TaskDifficulty::Medium));
    assert_eq!(t.extra, existing.extra);

    let fresh = habitica_to_taskwarrior_with_id(&h, None, 42);
    assert_eq!(fresh.uuid, 42);
    assert_eq!(fresh.status, TaskStatus::Pending);
    assert!(fresh.extra.is_empty());
}

#[test]
fn update_in_place_keeps_waiting() {
    let mut t = test_tw_task();
    t.status = TaskStatus::Waiting;
    let mut h = test_h_task();
    h.date = Some(5);
    update_taskwarrior_from_habitica(&mut t, &h).unwrap();
    assert_eq!(t.status, TaskStatus::Waiting);
    assert_eq!(t.due, Some(5));
    h.completed = true;
    update_taskwarrior_from_habitica(&mut t, &h).unwrap();
    assert_eq!(t.status, TaskStatus::Completed);
}

#[test]
fn test_tasks_are_equivalent() {
    let tw_task = test_tw_task();
    let h_task = taskwarrior_to_habitica(&tw_task, None).unwrap().unwrap();

    assert!(tasks_are_equivalent(&tw_task, &h_task));
}

#[test]
fn test_tasks_not_equivalent_different_text() {
    let tw_task = test_tw_task();
    let mut h_task = taskwarrior_to_habitica(&tw_task, None).unwrap().unwrap();
    h_task.text = "Different text".to_string();

    assert!(!tasks_are_equivalent(&tw_task, &h_task));
}

#[test]
fn every_kind_is_equivalent_to_its_pushed_form() {
    for kind in [TaskType::Todo, TaskType::Daily, TaskType::Habit, TaskType::Reward] {
        let mut tw_task = test_tw_task();
        tw_task.habitica_task_type = Some(kind);
        let h_task = taskwarrior_to_habitica(&tw_task, Some("a note")).unwrap().unwrap();
        assert!(tasks_are_equivalent(&tw_task, &h_task));
    }
}

#[test]
fn habit_differs_from_a_remote_daily() {
    let mut tw_task = test_tw_task();
    tw_task.habitica_task_type = Some(TaskType::Habit);
    let mut h_task = taskwarrior_to_habitica(&tw_task, None).unwrap().unwrap();
    h_task.task_type = HabiticaTaskType::Daily;
    assert!(!tasks_are_equivalent(&tw_task, &h_task));
}

#[test]
fn tie_resolves_to_local() {
    let config = test_config();
    let resolver = ConflictResolver::new(&config);
    let tw = test_tw_task();
    let mut h = test_h_task();
    h.text = "Changed remotely".to_string();
    assert_eq!(resolver.resolve_at(&tw, &h, 0), ResolutionAction::UseTaskwarrior);
    h.updated_at = Some(1_700_000_000_001);
    assert_eq!(resolver.resolve_at(&tw, &h, 0), ResolutionAction::UseHabitica);
    assert_eq!(resolver.resolve_at(&tw, &test_h_task(), 0), ResolutionAction::NoChange);
}

#[test]
fn missing_time_reads_as_now() {
    let config = test_config();
    let resolver = ConflictResolver::new(&config);
    let mut tw = test_tw_task();
    tw.modified = None;
    let mut h = test_h_task();
    h.text = "Changed".to_string();
    assert_eq!(resolver.resolve_at(&tw, &h, 1_800_000_000_000), ResolutionAction::UseTaskwarrior);
    assert_eq!(resolver.resolve_at(&tw, &h, 1_600_000_000_000), ResolutionAction::UseHabitica);
}

#[test]
fn completed_task_vanished_remotely_stays_completed() {
    let mut tw = test_tw_task();
    tw.status = TaskStatus::Completed;
    let updated = vanished_remotely(&tw);
    assert_eq!(updated.status, TaskStatus::Completed);
    assert_eq!(updated.habitica_uuid, None);

    let gone = vanished_remotely(&test_tw_task());
    assert_eq!(gone.status, TaskStatus::Deleted);
    assert_eq!(gone.habitica_uuid, None);
}

#[test]
fn push_new_task_creates_once_and_writes_id_back() {
    let config = test_config();
    let resolver = ConflictResolver::new(&config);
    let mut task = test_tw_task();
    task.description = "Buy milk".to_string();
    task.habitica_uuid = None;

    let op = resolver.push_to_habitica(&task, None);
    let created = match &op.call {
        Some(RemoteCall::Create(h)) => h.clone(),
        other => panic!("unexpected {:?}", other),
    };
    assert_eq!(created.text, "Buy milk");
    assert_eq!(created.id, None);

    let mut ledger: Option<StatsCache> = None;
    let op = op.advance(MutationReply { task_id: Some(77), stats: None, drop_message: None }, &mut ledger);
    assert_eq!(op.stage, Stage::Done);
    assert!(op.call.is_none());
    assert_eq!(op.task.habitica_uuid, Some(77));
}

#[test]
fn push_completed_task_scores_up() {
    let config = test_config();
    let resolver = ConflictResolver::new(&config);
    let mut task = test_tw_task();
    task.status = TaskStatus::Completed;
    let op = resolver.push_to_habitica(&task, None);
    assert!(matches!(op.call, Some(RemoteCall::Update(id, _)) if id == REMOTE_ID));
    let mut ledger = Some(StatsCache::new(stats(50_000, 30_000, 0, 0)));
    let op = op.advance(
        MutationReply { task_id: Some(REMOTE_ID), stats: Some(stats(50_000, 30_000, 5_000, 0)), drop_message: None },
        &mut ledger,
    );
    assert!(matches!(op.call, Some(RemoteCall::Score(id, ScoreDirection::Up)) if id == REMOTE_ID));
    let op = op.advance(MutationReply { task_id: None, stats: None, drop_message: None }, &mut ledger);
    assert_eq!(op.stage, Stage::Done);
}

#[test]
fn completing_a_synced_task_updates_then_scores_up() {
    let config = test_config();
    let resolver = ConflictResolver::new(&config);
    let old = test_tw_task();
    let mut new = test_tw_task();
    new.status = TaskStatus::Completed;

    let mut ledger = Some(StatsCache::new(stats(50_000, 30_000, 0, 100_000)));
    let op = resolver.modify_on_habitica(&old, &new, None);
    match &op.call {
        Some(RemoteCall::Update(id, h)) => {
            assert_eq!(*id, REMOTE_ID);
            assert!(h.completed);
        }
        other => panic!("unexpected {:?}", other),
    }
    let op = op.advance(
        MutationReply { task_id: Some(REMOTE_ID), stats: Some(stats(50_000, 30_000, 0, 100_000)), drop_message: None },
        &mut ledger,
    );
    assert!(matches!(op.call, Some(RemoteCall::Score(id, ScoreDirection::Up)) if id == REMOTE_ID));
    let op = op.advance(
        MutationReply {
            task_id: None,
            stats: Some(stats(48_000, 29_000, 12_000, 103_000)),
            drop_message: Some("You found a Sword!".to_string()),
        },
        &mut ledger,
    );
    assert_eq!(op.stage, Stage::Done);
    assert!(op.call.is_none());
    assert_eq!(op.task.status, TaskStatus::Completed);
    assert_eq!(
        ledger.unwrap().get_diff_messages(),
        vec![
            "HP:-2 (48/50)".to_string(),
            "MP:-1 (29/30)".to_string(),
            "Exp:+12 (12)".to_string(),
            "Gold:+3 (103)".to_string(),
            "You found a Sword!".to_string(),
        ]
    );
}

#[test]
fn reopening_scores_down_and_deleting_removes_remote() {
    let config = test_config();
    let resolver = ConflictResolver::new(&config);
    let mut old = test_tw_task();
    old.status = TaskStatus::Completed;
    let new = test_tw_task();
    assert!(matches!(resolver.handle_status_change(&old, &new), Some(RemoteCall::Score(_, ScoreDirection::Down))));
    assert!(resolver.handle_status_change(&new, &new).is_none());

    let mut deleted = test_tw_task();
    deleted.status = TaskStatus::Deleted;
    let op = resolver.modify_on_habitica(&old, &deleted, None);
    assert!(matches!(op.call, Some(RemoteCall::Delete(id)) if id == REMOTE_ID));
    assert_eq!(op.task.habitica_uuid, None);
    let mut ledger: Option<StatsCache> = None;
    let op = op.advance(MutationReply { task_id: None, stats: None, drop_message: None }, &mut ledger);
    assert_eq!(op.stage, Stage::Done);
}

#[test]
fn pull_brings_the_note_along() {
    let config = test_config();
    let resolver = ConflictResolver::new(&config);
    let mut h = test_h_task();
    h.notes = "Shopping list\nmilk".to_string();
    let (t, change) = resolver.pull_from_habitica_at(&h, None, 9, "20260101T000000Z".to_string()).unwrap();
    assert_eq!(t.uuid, 9);
    match change {
        NoteChange::Write(w) => assert_eq!(w, "Shopping list\nmilk"),
        NoteChange::Remove => panic!("note expected"),
    }
    assert_eq!(t.annotations.unwrap()[0].description, "[tasknote] Shopping list");

    let (_, change) = resolver.pull_from_habitica_at(&test_h_task(), None, 9, "x".to_string()).unwrap();
    assert!(matches!(change, NoteChange::Remove));
}

#[test]
fn pairing_is_sorted_and_deduplicated() {
    let mut h1 = test_h_task();
    h1.id = Some(30);
    let mut h2 = test_h_task();
    h2.id = Some(10);
    let mut h3 = test_h_task();
    h3.id = None;
    let mut t1 = test_tw_task();
    t1.habitica_uuid = Some(20);
    let mut t2 = test_tw_task();
    t2.habitica_uuid = Some(10);
    assert_eq!(pairing_keys(&vec![h1, h2, h3], &vec![t1, t2]), vec![10, 20, 30]);
}

#[test]
fn plans_for_each_pattern() {
    let config = test_config();
    let resolver = ConflictResolver::new(&config);
    let mut remote_only = test_h_task();
    remote_only.id = Some(1);
    let mut local_only = test_tw_task();
    local_only.habitica_uuid = Some(2);
    let both_local = test_tw_task();
    let mut both_remote = test_h_task();
    both_remote.text = "Edited remotely".to_string();
    both_remote.updated_at = Some(1_800_000_000_000);
    let hs = vec![remote_only, both_remote];
    let ts = vec![local_only, both_local];
    assert!(matches!(resolver.plan_pair(1, &hs, &ts, 0), PairPlan::Import(h) if h.id == Some(1)));
    assert!(matches!(resolver.plan_pair(2, &hs, &ts, 0), PairPlan::Vanished(t) if t.status == TaskStatus::Deleted));
    assert!(matches!(resolver.plan_pair(REMOTE_ID, &hs, &ts, 0), PairPlan::Pull { .. }));
    assert!(matches!(resolver.plan_pair(3, &hs, &ts, 0), PairPlan::Unchanged));
}

#[test]
fn modification_without_changes_needs_no_sync() {
    let old = test_tw_task();
    let mut new = test_tw_task();
    assert!(!modify_needs_sync(&old, &new, None, false, "[tasknote]"));
    assert!(modify_needs_sync(&old, &new, None, true, "[tasknote]"));
    new.description = "Other".to_string();
    assert!(modify_needs_sync(&old, &new, None, false, "[tasknote]"));
}
