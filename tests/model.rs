use task2habitica::{
    reply_status, Annotation, Config, Error, HabiticaResponse, HabiticaTask, HabiticaTaskStatus,
    HabiticaTaskType, ItemDrop, ItemDropData, ItemDropTemp, NotesManager, ReplyStatus,
    ResolutionAction, ScoreDirection, Task, TaskDifficulty, TaskStatus, TaskType,
    TaskwarriorClient,
};

fn plain_task(uuid: u128) -> Task {
    Task {
        uuid,
        description: "Test task".to_string(),
        status: TaskStatus::Pending,
        modified: None,
        due: None,
        annotations: None,
        habitica_uuid: None,
        habitica_difficulty: None,
        habitica_task_type: None,
        extra: Vec::new(),
    }
}

fn test_config() -> Config {
    Config {
        habitica_user_id: String::new(),
        habitica_api_key: String::new(),
        task_note_dir: "/tmp/test_notes".to_string(),
        task_note_prefix: "[tasknote]".to_string(),
        task_note_extension: ".txt".to_string(),
        data_location: "/tmp".to_string(),
        verbose: false,
    }
}

#[test]
fn test_task_difficulty_conversion() {
    assert_eq!(TaskDifficulty::Trivial.to_habitica_priority(), 100);
    assert_eq!(TaskDifficulty::Easy.to_habitica_priority(), 1000);
    assert_eq!(TaskDifficulty::Medium.to_habitica_priority(), 1500);
    assert_eq!(TaskDifficulty::Hard.to_habitica_priority(), 2000);

    assert_eq!(TaskDifficulty::from_habitica_priority(100), TaskDifficulty::Trivial);
    assert_eq!(TaskDifficulty::from_habitica_priority(1000), TaskDifficulty::Easy);
    assert_eq!(TaskDifficulty::from_habitica_priority(1500), TaskDifficulty::Medium);
    assert_eq!(TaskDifficulty::from_habitica_priority(2000), TaskDifficulty::Hard);
}

#[test]
fn difficulty_round_trip_for_every_bucket() {
    for d in [
        TaskDifficulty::Trivial,
        TaskDifficulty::Easy,
        TaskDifficulty::Medium,
        TaskDifficulty::Hard,
    ] {
        assert_eq!(TaskDifficulty::from_habitica_priority(d.to_habitica_priority()), d);
    }
}

#[test]
fn priority_tolerance_edges() {
    assert_eq!(TaskDifficulty::from_habitica_priority(109), TaskDifficulty::Trivial);
    assert_eq!(TaskDifficulty::from_habitica_priority(91), TaskDifficulty::Trivial);
    assert_eq!(TaskDifficulty::from_habitica_priority(110), TaskDifficulty::Hard);
    assert_eq!(TaskDifficulty::from_habitica_priority(1495), TaskDifficulty::Medium);
    assert_eq!(TaskDifficulty::from_habitica_priority(0), TaskDifficulty::Hard);
    assert_eq!(TaskDifficulty::from_habitica_priority(i64::MIN), TaskDifficulty::Hard);
    assert_eq!(TaskDifficulty::from_habitica_priority(i64::MAX), TaskDifficulty::Hard);
}

#[test]
fn test_task_status_sync() {
    assert!(TaskStatus::Pending.should_sync_to_habitica());
    assert!(TaskStatus::Waiting.should_sync_to_habitica());
    assert!(TaskStatus::Completed.should_sync_to_habitica());
    assert!(!TaskStatus::Deleted.should_sync_to_habitica());
    assert!(!TaskStatus::Recurring.should_sync_to_habitica());
}

#[test]
fn status_predicates() {
    assert!(TaskStatus::Completed.is_completed());
    assert!(!TaskStatus::Waiting.is_completed());
    assert!(TaskStatus::Waiting.is_pending());
    assert!(TaskStatus::Pending.is_pending());
    assert!(!TaskStatus::Deleted.is_pending());
}

#[test]
fn task_defaults_for_difficulty_and_type() {
    let t = plain_task(1);
    assert_eq!(t.difficulty(), TaskDifficulty::Easy);
    assert_eq!(t.task_type(), TaskType::Todo);
    assert_eq!(t.modified_or(77), 77);
}

#[test]
fn task_equality_ignores_modification_time() {
    let a = plain_task(5);
    let mut b = a.clone();
    b.modified = Some(1234);
    b.extra.push(("urgency".to_string(), "3.2".to_string()));
    assert!(a == b);
    b.description = "Other".to_string();
    assert!(a != b);
}

#[test]
fn test_score_direction() {
    assert_eq!(ScoreDirection::Up.as_str(), "up");
    assert_eq!(ScoreDirection::Down.as_str(), "down");
}

#[test]
fn test_resolution_action() {
    let _action = ResolutionAction::NoChange;
    let _action = ResolutionAction::UseTaskwarrior;
    let _action = ResolutionAction::UseHabitica;
}

#[test]
fn test_habitica_task_effective_status() {
    let mut task = HabiticaTask {
        id: None,
        text: "Test".to_string(),
        notes: String::new(),
        task_type: HabiticaTaskType::Todo,
        priority: 1000,
        completed: false,
        date: None,
        updated_at: None,
        is_due: false,
    };

    assert_eq!(task.effective_status(), HabiticaTaskStatus::Pending);

    task.completed = true;
    assert_eq!(task.effective_status(), HabiticaTaskStatus::Completed);

    task.task_type = HabiticaTaskType::Daily;
    task.completed = false;
    task.is_due = false;
    assert_eq!(task.effective_status(), HabiticaTaskStatus::Completed);

    task.is_due = true;
    assert_eq!(task.effective_status(), HabiticaTaskStatus::Pending);
}

#[test]
fn item_drop_message_reads_the_dialog() {
    let drop = ItemDrop {
        tmp: Some(ItemDropTemp {
            drop: Some(ItemDropData { dialog: Some("You found a Sword!".to_string()) }),
        }),
    };
    assert_eq!(drop.message(), Some("You found a Sword!".to_string()));
    let empty = ItemDrop { tmp: Some(ItemDropTemp { drop: None }) };
    assert_eq!(empty.message(), None);
}

#[test]
fn envelope_errors() {
    let failed: HabiticaResponse<u32> =
        HabiticaResponse { success: false, data: None, error: None, message: None };
    match failed.into_data() {
        Err(Error::HabiticaApiError(m)) => assert_eq!(m, "Unknown error"),
        other => panic!("unexpected {:?}", other),
    }
    let refused: HabiticaResponse<u32> = HabiticaResponse {
        success: false,
        data: Some(3),
        error: None,
        message: Some("Not authorized".to_string()),
    };
    match refused.into_data() {
        Err(Error::HabiticaApiError(m)) => assert_eq!(m, "Not authorized"),
        other => panic!("unexpected {:?}", other),
    }
    let empty: HabiticaResponse<u32> =
        HabiticaResponse { success: true, data: None, error: None, message: None };
    match empty.into_data() {
        Err(Error::HabiticaApiError(m)) => assert_eq!(m, "No data in response"),
        other => panic!("unexpected {:?}", other),
    }
    let ok: HabiticaResponse<u32> =
        HabiticaResponse { success: true, data: Some(7), error: None, message: None };
    assert_eq!(ok.into_data().ok(), Some(7));
}

#[test]
fn reply_statuses() {
    assert_eq!(reply_status(200, false), ReplyStatus::Success);
    assert_eq!(reply_status(201, true), ReplyStatus::Success);
    assert_eq!(reply_status(404, true), ReplyStatus::AlreadyGone);
    assert_eq!(reply_status(404, false), ReplyStatus::Failure);
    assert_eq!(reply_status(500, true), ReplyStatus::Failure);
}

#[test]
fn user_errors() {
    assert!(Error::TaskwarriorNotFound.is_user_error());
    assert!(Error::config("x".to_string()).is_user_error());
    assert!(!Error::custom("x".to_string()).is_user_error());
    assert!(!Error::HabiticaApiError("x".to_string()).is_user_error());
}

#[test]
fn version_check() {
    assert!(Config::check_version("3.4.2\n").is_ok());
    assert!(Config::check_version("task 2.5.0").is_ok());
    assert!(Config::check_version("2.10").is_ok());
    match Config::check_version("task 2.4.9\nmore") {
        Err(Error::TaskwarriorVersionTooOld(v)) => assert_eq!(v, "2.4.9"),
        other => panic!("unexpected {:?}", other),
    }
    match Config::check_version("") {
        Err(Error::TaskwarriorVersionTooOld(v)) => assert_eq!(v, "unknown"),
        other => panic!("unexpected {:?}", other),
    }
    match Config::check_version("version3") {
        Err(Error::TaskwarriorVersionTooOld(v)) => assert_eq!(v, "version3"),
        other => panic!("unexpected {:?}", other),
    }
    match Config::check_version("x.7") {
        Err(Error::TaskwarriorVersionTooOld(v)) => assert_eq!(v, "x.7"),
        other => panic!("unexpected {:?}", other),
    }
}

#[test]
fn test_expand_path() {
    if dirs::home_dir().is_some() {
        let expanded =
            Config::expand_path("~/.task/notes").expect("Failed to expand path in test");
        assert!(expanded.contains(".task/notes"));
        assert!(!expanded.starts_with('~'));
    }
}

#[test]
fn test_expand_path_no_tilde() {
    let path = "/tmp/test";
    let expanded = Config::expand_path(path).expect("Failed to expand path in test");
    assert_eq!(expanded, path);
}

#[test]
fn expand_path_with_given_home() {
    let home = Some("/home/ann".to_string());
    assert_eq!(Config::expand_path_with("~/.task", home.clone()).ok(), Some("/home/ann/.task".to_string()));
    assert_eq!(Config::expand_path_with("~", home).ok(), Some("/home/ann/".to_string()));
    match Config::expand_path_with("~/x", None) {
        Err(Error::ConfigError(_)) => {}
        other => panic!("unexpected {:?}", other),
    }
}

#[test]
fn stats_cache_path_joins_the_data_directory() {
    let mut config = test_config();
    assert_eq!(config.stats_cache_path(), "/tmp/cached_habitica_stats.json");
    config.data_location = "/var/data/".to_string();
    assert_eq!(config.stats_cache_path(), "/var/data/cached_habitica_stats.json");
}

#[test]
fn taskrc_value_or_default() {
    assert_eq!(Config::get_taskrc_value_or_default(String::new(), ".txt"), ".txt");
    assert_eq!(Config::get_taskrc_value_or_default(".md".to_string(), ".txt"), ".md");
}

#[test]
fn test_note_path() {
    let config = test_config();
    let manager = NotesManager::new(&config);
    let task = plain_task(0x0123_4567_89ab_cdef_0011_2233_4455_6677);

    let path = manager.note_path(&task);
    assert!(path.contains("01234567-89ab-cdef-0011-223344556677"));
    assert!(path.ends_with(".txt"));
    assert_eq!(path, "/tmp/test_notes/01234567-89ab-cdef-0011-223344556677.txt");
}

#[test]
fn note_annotations_are_recognised_and_filtered() {
    let mut task = plain_task(9);
    task.annotations = Some(vec![
        Annotation { entry: "20240101T000000Z".to_string(), description: "  [tasknote] old".to_string() },
        Annotation { entry: "20240102T000000Z".to_string(), description: "call back".to_string() },
    ]);
    assert!(task.has_note_annotation("[tasknote]"));
    let kept = task.filter_note_annotations("[tasknote]");
    assert_eq!(kept.len(), 1);
    assert_eq!(kept[0].description, "call back");
    assert!(!plain_task(1).has_note_annotation("[tasknote]"));
}

#[test]
fn note_preview_replaces_old_mirror() {
    let config = test_config();
    let manager = NotesManager::new(&config);
    let mut task = plain_task(9);
    task.annotations = Some(vec![
        Annotation { entry: "1".to_string(), description: "[tasknote] old".to_string() },
        Annotation { entry: "2".to_string(), description: "keep me".to_string() },
    ]);
    manager
        .sync_note_to_annotation_at(&mut task, Some("  First line  \r\nsecond".to_string()), "20260101T000000Z".to_string())
        .unwrap();
    let annos = task.annotations.clone().unwrap();
    assert_eq!(annos.len(), 2);
    assert_eq!(annos[0].description, "[tasknote] First line");
    assert_eq!(annos[0].entry, "20260101T000000Z");
    assert_eq!(annos[1].description, "keep me");

    manager.sync_note_to_annotation_at(&mut task, Some("   ".to_string()), "x".to_string()).unwrap();
    assert_eq!(task.annotations.clone().unwrap().len(), 1);

    let mut bare = plain_task(3);
    bare.annotations = Some(vec![Annotation { entry: "1".to_string(), description: "[tasknote] a".to_string() }]);
    manager.sync_note_to_annotation_at(&mut bare, None, "x".to_string()).unwrap();
    assert!(bare.annotations.is_none());
}

#[test]
fn taskwarrior_client_constructs() {
    assert_eq!(TaskwarriorClient::new(), TaskwarriorClient::default());
}
