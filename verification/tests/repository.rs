use roff_bot::dto::{
    OnWarnAction, Punishment, PunishmentKind, PunishmentTime, UserWarning, WarningGroup,
    WarningInfo,
};
use roff_bot::effect::Effect;
use roff_bot::handlers::CatalogLookup;
use roff_bot::repository::{sum_points, WarnsRepository};
use roff_bot::warn::WarnError;

fn group(name: &str, max_points: u64) -> WarningGroup {
    WarningGroup {
        name: name.to_string(),
        max_points,
        punishment: Punishment { time: PunishmentTime::Forever, kind: PunishmentKind::Mute },
    }
}

fn info(trigger: &str, points: u64, group_name: &str) -> WarningInfo {
    WarningInfo {
        trigger: trigger.to_string(),
        points,
        group: group(group_name, 100),
        on_warn: OnWarnAction::Nothing,
    }
}

fn record(user_id: i64, trigger: &str, points: u64, group_name: &str) -> UserWarning {
    UserWarning { user_id, info: info(trigger, points, group_name) }
}

fn default_group() -> WarningGroup {
    group("царизм", 100)
}

fn default_type() -> WarningInfo {
    WarningInfo {
        trigger: "макака".to_string(),
        points: 30,
        group: default_group(),
        on_warn: OnWarnAction::DeleteMessage,
    }
}

#[test]
fn a_new_repository_is_empty() {
    let repo = WarnsRepository::new();
    assert_eq!(repo.find_warn_by_trigger(&"макака".to_string()), None);
    assert_eq!(repo.get_warn_group(&"царизм".to_string()), None);
    assert_eq!(repo.get_actual_warns(1), vec![]);
    assert_eq!(repo.get_old_warns(1), vec![]);
    assert_eq!(repo.get_user_warn_points(1, &default_group()), 0);
}

#[test]
fn default_values_are_inserted_once() {
    let mut repo = WarnsRepository::new();
    repo.insert_default_values();
    assert_eq!(repo.get_warn_group(&"царизм".to_string()), Some(default_group()));
    assert_eq!(repo.find_warn_by_trigger(&"макака".to_string()), Some(default_type()));

    let mut once = WarnsRepository::new();
    once.insert_default_values();
    repo.insert_default_values();
    assert_eq!(repo, once);
}

#[test]
fn default_values_replace_what_stands_under_their_keys() {
    let mut repo = WarnsRepository::new();
    repo.upsert_warn_group(group("other", 5));
    repo.upsert_warn_group(group("царизм", 1));
    repo.upsert_warn_type(info("макака", 99, "other"));
    repo.insert_warn_type(info("keep", 1, "other"));

    repo.insert_default_values();

    assert_eq!(repo.get_warn_group(&"царизм".to_string()), Some(default_group()));
    assert_eq!(repo.get_warn_group(&"other".to_string()), Some(group("other", 5)));
    assert_eq!(repo.find_warn_by_trigger(&"макака".to_string()), Some(default_type()));
    assert_eq!(repo.find_warn_by_trigger(&"keep".to_string()), Some(info("keep", 1, "other")));
}

#[test]
fn upsert_replaces_only_the_first_of_a_key() {
    let mut repo = WarnsRepository::new();
    repo.insert_warn_type(info("dup", 1, "a"));
    repo.insert_warn_type(info("dup", 2, "a"));
    repo.upsert_warn_type(info("dup", 3, "a"));
    assert_eq!(repo.find_warn_by_trigger(&"dup".to_string()), Some(info("dup", 3, "a")));

    let mut expected = WarnsRepository::new();
    expected.insert_warn_type(info("dup", 3, "a"));
    expected.insert_warn_type(info("dup", 2, "a"));
    assert_eq!(repo, expected);
}

#[test]
fn search_finds_the_first_exact_match() {
    let mut repo = WarnsRepository::new();
    repo.insert_warn_type(info("foo", 1, "a"));
    repo.insert_warn_type(info("bar", 2, "a"));
    repo.insert_warn_type(info("bar", 3, "a"));
    assert_eq!(repo.find_warn_by_trigger(&"bar".to_string()), Some(info("bar", 2, "a")));
    assert_eq!(repo.find_warn_by_trigger(&"ba".to_string()), None);
    assert_eq!(repo.find_warn_by_trigger(&"Bar".to_string()), None);
    assert_eq!(repo.find_warn_by_trigger(&"".to_string()), None);
}

#[test]
fn lookup_asks_for_group_and_type() {
    let mut repo = WarnsRepository::new();
    repo.upsert_warn_group(group("both", 10));
    repo.insert_warn_type(info("both", 1, "a"));
    repo.insert_warn_type(info("type-only", 1, "a"));
    assert_eq!(
        repo.lookup(&"both".to_string()),
        CatalogLookup { group: Some(group("both", 10)), warn: Some(info("both", 1, "a")) }
    );
    assert_eq!(
        repo.lookup(&"type-only".to_string()),
        CatalogLookup { group: None, warn: Some(info("type-only", 1, "a")) }
    );
    assert_eq!(repo.lookup(&"none".to_string()), CatalogLookup { group: None, warn: None });
}

#[test]
fn points_are_summed_over_the_active_records_of_the_pair() {
    let mut repo = WarnsRepository::new();
    repo.insert_warn(record(1, "x", 10, "a"));
    repo.insert_warn(record(1, "y", 5, "a"));
    repo.insert_warn(record(1, "z", 100, "b"));
    repo.insert_warn(record(2, "x", 1000, "a"));
    assert_eq!(repo.get_user_warn_points(1, &group("a", 0)), 15);
    assert_eq!(repo.get_user_warn_points(1, &group("b", 0)), 100);
    assert_eq!(repo.get_user_warn_points(2, &group("a", 0)), 1000);
    assert_eq!(repo.get_user_warn_points(2, &group("b", 0)), 0);
    assert_eq!(repo.get_user_warn_points(3, &group("a", 0)), 0);
}

#[test]
fn a_sum_beyond_sixty_four_bits_is_exact() {
    let mut repo = WarnsRepository::new();
    repo.insert_warn(record(1, "x", u64::MAX, "a"));
    repo.insert_warn(record(1, "x", u64::MAX, "a"));
    repo.insert_warn(record(1, "x", 2, "a"));
    assert_eq!(repo.get_user_warn_points(1, &group("a", 0)), 2 * (u64::MAX as u128) + 2);
}

#[test]
fn active_records_are_listed_in_order() {
    let mut repo = WarnsRepository::new();
    repo.insert_warn(record(1, "x", 10, "a"));
    repo.insert_warn(record(2, "x", 10, "a"));
    repo.insert_warn(record(1, "z", 7, "b"));
    repo.insert_warn(record(1, "y", 5, "a"));
    assert_eq!(
        repo.get_actual_warns(1),
        vec![record(1, "x", 10, "a"), record(1, "z", 7, "b"), record(1, "y", 5, "a")]
    );
    assert_eq!(
        repo.get_actual_warns_by_group(1, &"a".to_string()),
        vec![record(1, "x", 10, "a"), record(1, "y", 5, "a")]
    );
    assert_eq!(repo.get_actual_warns_by_group(2, &"b".to_string()), vec![]);
}

#[test]
fn archiving_moves_the_records_of_the_pair_and_no_other() {
    let mut repo = WarnsRepository::new();
    repo.insert_warn(record(1, "x", 10, "a"));
    repo.insert_warn(record(2, "x", 10, "a"));
    repo.insert_warn(record(1, "z", 7, "b"));
    repo.insert_warn(record(1, "y", 5, "a"));

    repo.remove_actual_warns(1, &group("a", 3));

    assert_eq!(repo.get_actual_warns(1), vec![record(1, "z", 7, "b")]);
    assert_eq!(repo.get_actual_warns(2), vec![record(2, "x", 10, "a")]);
    assert_eq!(repo.get_old_warns(1), vec![record(1, "x", 10, "a"), record(1, "y", 5, "a")]);
    assert_eq!(repo.get_old_warns(2), vec![]);

    repo.remove_actual_warns(1, &group("a", 3));
    assert_eq!(repo.get_old_warns(1), vec![record(1, "x", 10, "a"), record(1, "y", 5, "a")]);

    repo.remove_actual_warns(1, &group("b", 3));
    assert_eq!(repo.get_actual_warns(1), vec![]);
    assert_eq!(
        repo.get_old_warns(1),
        vec![record(1, "x", 10, "a"), record(1, "y", 5, "a"), record(1, "z", 7, "b")]
    );
}

#[test]
fn only_writes_change_the_repository() {
    let mut repo = WarnsRepository::new();
    repo.apply(&Effect::SendMessage { chat_id: 1, text: "hello".to_string() });
    repo.apply(&Effect::DeleteMessage { chat_id: 1, message_id: 2 });
    repo.apply(&Effect::Ban { chat_id: 1, user_id: 2, until: 3 });
    assert_eq!(repo, WarnsRepository::new());

    repo.apply(&Effect::InsertWarn { warn: record(1, "x", 10, "a") });
    repo.apply(&Effect::InsertWarnType { info: info("x", 10, "a") });
    assert_eq!(repo.get_actual_warns(1), vec![record(1, "x", 10, "a")]);
    assert_eq!(repo.find_warn_by_trigger(&"x".to_string()), Some(info("x", 10, "a")));

    repo.apply(&Effect::ArchiveWarns { user_id: 1, group_name: "a".to_string() });
    assert_eq!(repo.get_actual_warns(1), vec![]);
    assert_eq!(repo.get_old_warns(1), vec![record(1, "x", 10, "a")]);
}

#[test]
fn settling_stops_at_a_refused_restriction() {
    let effects = vec![
        Effect::InsertWarn { warn: record(1, "x", 10, "a") },
        Effect::Mute { chat_id: 1, user_id: 1, until: 0 },
        Effect::InsertWarn { warn: record(1, "y", 10, "a") },
    ];

    let mut repo = WarnsRepository::new();
    assert_eq!(repo.settle(&effects, false), Err(WarnError::PunishmentApplyFailed));
    assert_eq!(repo.get_actual_warns(1), vec![record(1, "x", 10, "a")]);

    let mut repo = WarnsRepository::new();
    assert_eq!(repo.settle(&effects, true), Ok(()));
    assert_eq!(
        repo.get_actual_warns(1),
        vec![record(1, "x", 10, "a"), record(1, "y", 10, "a")]
    );

    let mut repo = WarnsRepository::new();
    assert_eq!(repo.settle(&vec![], false), Ok(()));
    assert_eq!(repo, WarnsRepository::new());
}

#[test]
fn the_points_of_a_list_are_summed() {
    assert_eq!(sum_points(&vec![]), 0);
    assert_eq!(sum_points(&vec![record(1, "x", 7, "a")]), 7);
    assert_eq!(
        sum_points(&vec![record(1, "x", 7, "a"), record(2, "y", 8, "b"), record(1, "x", 0, "a")]),
        15
    );
}

#[test]
fn the_default_values_are_a_muting_group_and_a_deleting_type() {
    assert_eq!(WarnsRepository::default_group(), default_group());
    assert_eq!(WarnsRepository::default_warn_type(), default_type());
    assert_eq!(default_group().max_points, 100);
    assert_eq!(default_type().points, 30);
}
