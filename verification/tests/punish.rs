use roff_bot::dto::{ChatPermissions, Punishment, PunishmentKind, PunishmentTime};
use roff_bot::effect::Effect;
use roff_bot::punish::{
    expiry_is_representable, message_user_punished, punish_user, punishment_expiry,
    MAX_TIMESTAMP, MIN_TIMESTAMP,
};

const T: i64 = 1_650_000_000;

#[test]
fn forever_ends_at_the_anchor_and_an_hour_ends_an_hour_later() {
    assert_eq!(punishment_expiry(PunishmentTime::Forever, T), T);
    assert_eq!(punishment_expiry(PunishmentTime::Time(3600), T), T + 3600);
    assert_eq!(punishment_expiry(PunishmentTime::Time(0), T), T);
    assert_eq!(punishment_expiry(PunishmentTime::Forever, 0), 0);
    assert_eq!(punishment_expiry(PunishmentTime::Time(86_400), -86_400), 0);
}

#[test]
fn expiry_agrees_with_chrono() {
    let start = chrono::DateTime::from_timestamp(T, 0).unwrap();
    let end = start + chrono::TimeDelta::try_seconds(7200).unwrap();
    assert_eq!(punishment_expiry(PunishmentTime::Time(7200), T), end.timestamp());
}

#[test]
fn the_whole_range_of_date_times_is_accepted() {
    assert!(expiry_is_representable(PunishmentTime::Forever, MAX_TIMESTAMP));
    assert_eq!(punishment_expiry(PunishmentTime::Forever, MAX_TIMESTAMP), MAX_TIMESTAMP);
    assert!(expiry_is_representable(PunishmentTime::Forever, MIN_TIMESTAMP));
    assert_eq!(punishment_expiry(PunishmentTime::Forever, MIN_TIMESTAMP), MIN_TIMESTAMP);

    let span = (MAX_TIMESTAMP - MIN_TIMESTAMP) as u64;
    assert!(expiry_is_representable(PunishmentTime::Time(span), MIN_TIMESTAMP));
    assert_eq!(punishment_expiry(PunishmentTime::Time(span), MIN_TIMESTAMP), MAX_TIMESTAMP);
    assert!(expiry_is_representable(PunishmentTime::Time(1), MAX_TIMESTAMP - 1));
    assert_eq!(punishment_expiry(PunishmentTime::Time(1), MAX_TIMESTAMP - 1), MAX_TIMESTAMP);
}

#[test]
fn the_range_is_that_of_chrono() {
    assert_eq!(chrono::DateTime::<chrono::Utc>::MAX_UTC.timestamp(), MAX_TIMESTAMP);
    assert_eq!(chrono::DateTime::<chrono::Utc>::MIN_UTC.timestamp(), MIN_TIMESTAMP);
    assert!(chrono::DateTime::from_timestamp(MAX_TIMESTAMP + 1, 0).is_none());
    assert!(chrono::DateTime::from_timestamp(MIN_TIMESTAMP - 1, 0).is_none());
}

#[test]
fn times_outside_the_range_are_told_apart() {
    assert!(!expiry_is_representable(PunishmentTime::Forever, MAX_TIMESTAMP + 1));
    assert!(!expiry_is_representable(PunishmentTime::Forever, MIN_TIMESTAMP - 1));
    assert!(!expiry_is_representable(PunishmentTime::Time(1), MAX_TIMESTAMP));
    assert!(!expiry_is_representable(PunishmentTime::Time(u64::MAX), T));
    assert!(!expiry_is_representable(PunishmentTime::Time(0), i64::MAX));
    assert!(!expiry_is_representable(PunishmentTime::Time(0), i64::MIN));
    assert!(expiry_is_representable(PunishmentTime::Time(3600), T));
}

#[test]
fn each_kind_becomes_its_restriction() {
    let forever = |kind| Punishment { time: PunishmentTime::Forever, kind };
    assert_eq!(
        punish_user(-1001, T, 5, &forever(PunishmentKind::Ban)),
        Effect::Ban { chat_id: -1001, user_id: 5, until: T }
    );
    assert_eq!(
        punish_user(-1001, T, 5, &forever(PunishmentKind::Mute)),
        Effect::Mute { chat_id: -1001, user_id: 5, until: T }
    );
    let some = ChatPermissions { bits: 3 };
    assert_eq!(
        punish_user(
            -1001,
            T,
            5,
            &Punishment { time: PunishmentTime::Time(60), kind: PunishmentKind::Restrict(some) }
        ),
        Effect::Restrict { chat_id: -1001, user_id: 5, permissions: some, until: T + 60 }
    );
}

#[test]
fn punishment_messages_name_kind_and_duration() {
    let message = |time, kind| message_user_punished("Bob", &Punishment { time, kind });
    assert_eq!(
        message(PunishmentTime::Forever, PunishmentKind::Mute),
        "User Bob has been muted forever!"
    );
    assert_eq!(
        message(PunishmentTime::Time(3600), PunishmentKind::Ban),
        "User Bob has been baned for a 3600 seconds."
    );
    assert_eq!(
        message(PunishmentTime::Time(0), PunishmentKind::Restrict(ChatPermissions::empty())),
        "User Bob has been restricted for a 0 seconds."
    );
    assert_eq!(
        message(PunishmentTime::Time(u64::MAX), PunishmentKind::Ban),
        "User Bob has been baned for a 18446744073709551615 seconds."
    );
    assert_eq!(
        message_user_punished(
            "",
            &Punishment { time: PunishmentTime::Forever, kind: PunishmentKind::Ban }
        ),
        "User  has been baned forever!"
    );
}

#[test]
fn no_permissions_is_the_empty_set() {
    assert_eq!(ChatPermissions::empty(), ChatPermissions { bits: 0 });
}
