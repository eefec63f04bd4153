use task2habitica::{StatsCache, UserStats};

fn test_stats(hp: i64, mp: i64, exp: i64, gp: i64, lvl: i32) -> UserStats {
    UserStats {
        hp,
        max_hp: Some(50),
        mp,
        max_mp: Some(50),
        exp,
        to_next_level: Some(100),
        gp,
        lvl,
    }
}

#[test]
fn test_stats_diff_no_change() {
    let stats = test_stats(50_000, 50_000, 0, 100_000, 1);
    let cache = StatsCache::new(stats);

    let messages = cache.get_diff_messages();
    assert_eq!(messages.len(), 0);
}

#[test]
fn test_stats_diff_with_changes() {
    let old_stats = test_stats(50_000, 50_000, 0, 100_000, 1);
    let new_stats = test_stats(45_000, 52_000, 10_000, 105_500, 1);

    let mut cache = StatsCache::new(old_stats);
    cache.update(Some(new_stats), None);

    let messages = cache.get_diff_messages();
    assert!(!messages.is_empty());
    assert!(messages.iter().any(|m| m.contains("HP")));
    assert!(messages.iter().any(|m| m.contains("MP")));
    assert!(messages.iter().any(|m| m.contains("Exp")));
    assert!(messages.iter().any(|m| m.contains("Gold")));
}

#[test]
fn diff_lines_are_exact() {
    let old_stats = test_stats(50_000, 50_000, 0, 100_000, 1);
    let new_stats = test_stats(45_000, 52_000, 10_000, 105_500, 1);
    let mut cache = StatsCache::new(old_stats);
    cache.update(Some(new_stats), None);
    assert_eq!(
        cache.get_diff_messages(),
        vec![
            "HP:-5 (45/50)".to_string(),
            "MP:+2 (52/50)".to_string(),
            "Exp:+10 (10)".to_string(),
            "Gold:+6 (106)".to_string(),
        ]
    );
}

#[test]
fn small_diffs_use_two_decimals() {
    let old_stats = test_stats(50_000, 0, 0, 100_000, 1);
    let new_stats = test_stats(49_500, 250, 0, 100_009, 1);
    let mut cache = StatsCache::new(old_stats);
    cache.update(Some(new_stats), None);
    assert_eq!(
        cache.get_diff_messages(),
        vec!["HP:-0.50 (50/50)".to_string(), "MP:+0.25 (0.25/50)".to_string()]
    );
}

#[test]
fn negative_values_keep_their_sign() {
    let old_stats = test_stats(50_000, 50_000, 0, 2_000, 1);
    let new_stats = test_stats(50_000, 50_000, 0, -3_000, 1);
    let mut cache = StatsCache::new(old_stats);
    cache.update(Some(new_stats), None);
    assert_eq!(cache.get_diff_messages(), vec!["Gold:-5 (-3.00)".to_string()]);
}

#[test]
fn test_level_up() {
    let old_stats = test_stats(50_000, 50_000, 90_000, 100_000, 1);
    let new_stats = test_stats(50_000, 50_000, 10_000, 100_000, 2);

    let mut cache = StatsCache::new(old_stats);
    cache.update(Some(new_stats), None);

    let messages = cache.get_diff_messages();
    assert!(messages.iter().any(|m| m.contains("LEVEL UP")));
    assert!(messages.contains(&"LEVEL UP! (1 -> 2)".to_string()));
    assert!(!messages.iter().any(|m| m.contains("Exp")));
}

#[test]
fn level_lost_is_reported() {
    let old_stats = test_stats(50_000, 50_000, 10_000, 100_000, 3);
    let new_stats = test_stats(50_000, 50_000, 90_000, 100_000, 2);
    let mut cache = StatsCache::new(old_stats);
    cache.update(Some(new_stats), None);
    assert_eq!(cache.get_diff_messages(), vec!["LEVEL LOST! (3 -> 2)".to_string()]);
}

#[test]
fn test_item_drop() {
    let stats = test_stats(50_000, 50_000, 0, 100_000, 1);
    let mut cache = StatsCache::new(stats);
    cache.update(None, Some("You found a Sword!".to_string()));

    let messages = cache.get_diff_messages();
    assert!(messages.iter().any(|m| m.contains("Sword")));
}

#[test]
fn missing_stats_do_not_erase_earlier_ones() {
    let mut cache = StatsCache::new(test_stats(50_000, 50_000, 0, 100_000, 1));
    cache.update(Some(test_stats(40_000, 50_000, 0, 100_000, 1)), None);
    cache.update(None, Some("drop".to_string()));
    assert_eq!(cache.current, Some(test_stats(40_000, 50_000, 0, 100_000, 1)));
    assert_eq!(
        cache.get_diff_messages(),
        vec!["HP:-10 (40/50)".to_string(), "drop".to_string()]
    );
}

#[test]
fn changes_under_threshold_report_nothing() {
    let mut cache = StatsCache::new(test_stats(50_000, 50_000, 0, 100_000, 1));
    cache.update(Some(test_stats(50_009, 49_991, 5, 99_995, 1)), None);
    assert!(cache.get_diff_messages().is_empty());
}
