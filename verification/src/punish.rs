//! Turning a punishment into a restriction: until when it lasts, which
//! restriction it is, and how it is announced.

use crate::dto::{Punishment, PunishmentKind, PunishmentTime};
use crate::effect::{Effect, EffectView};
use crate::text::{decimal, u64_to_string};
use chrono::{DateTime, Duration, NaiveDateTime, Utc};
use vstd::prelude::*;
use vstd::string::*;

verus! {

/// The earliest Unix time that a UTC date-time can hold: the first second of
/// the year -262143.
pub const MIN_TIMESTAMP: i64 = -8_334_601_228_800;

/// The latest Unix time that a UTC date-time can hold: the last second of the
/// year 262142.
pub const MAX_TIMESTAMP: i64 = 8_210_266_876_799;

/// Whether a Unix time can be held as a UTC date-time.
pub open spec fn valid_timestamp(t: int) -> bool {
    MIN_TIMESTAMP <= t <= MAX_TIMESTAMP
}

/// The seconds that a punishment lasts. `Forever` counts as zero: the chat
/// platform reads a restriction that ends at the moment it begins as one
/// that never ends.
pub open spec fn duration_seconds(time: PunishmentTime) -> nat {
    match time {
        PunishmentTime::Time(seconds) => seconds as nat,
        PunishmentTime::Forever => 0,
    }
}

/// The Unix time at which a punishment that begins at `anchor_time` ends.
pub open spec fn expiry(time: PunishmentTime, anchor_time: i64) -> int {
    anchor_time + duration_seconds(time)
}

/// Whether both the beginning and the end of a punishment can be held as
/// date-times.
pub open spec fn expiry_in_range(time: PunishmentTime, anchor_time: i64) -> bool {
    valid_timestamp(anchor_time as int) && valid_timestamp(expiry(time, anchor_time))
}

/// Tells whether [`punishment_expiry`] can be asked for these values.
pub fn expiry_is_representable(time: PunishmentTime, anchor_time: i64) -> (res: bool)
    ensures
        res == expiry_in_range(time, anchor_time),
{
    if anchor_time < MIN_TIMESTAMP || anchor_time > MAX_TIMESTAMP {
        return false;
    }
    match time {
        PunishmentTime::Time(seconds) => {
            let room: i64 = MAX_TIMESTAMP - anchor_time;
            seconds <= room as u64
        },
        PunishmentTime::Forever => true,
    }
}

/// chrono's date-time arithmetic: the UTC date-time at `anchor` seconds after
/// the epoch (`NaiveDateTime::from_timestamp`, `DateTime::from_utc`), plus a
/// duration of `seconds` seconds (`Duration::seconds`, `+`), as a Unix time
/// again (`DateTime::timestamp`). chrono panics where a date-time is out of
/// its range, which the preconditions exclude; within the range the result
/// is the sum.
#[allow(deprecated)]
#[verifier::external_body]
fn timestamp_after(anchor: i64, seconds: i64) -> (res: i64)
    requires
        valid_timestamp(anchor as int),
        valid_timestamp(anchor + seconds),
    ensures
        res == anchor + seconds,
{
    let start = DateTime::<Utc>::from_utc(NaiveDateTime::from_timestamp(anchor, 0), Utc);
    (start + Duration::seconds(seconds)).timestamp()
}

/// The Unix time at which a punishment ends that begins at `anchor_time`, the
/// time of the message that set it off: `anchor_time` plus the seconds of a
/// timed punishment, and `anchor_time` itself for `Forever`.
pub fn punishment_expiry(time: PunishmentTime, anchor_time: i64) -> (res: i64)
    requires
        expiry_in_range(time, anchor_time),
    ensures
        res == expiry(time, anchor_time),
{
    let seconds: i64 = match time {
        PunishmentTime::Time(seconds) => seconds as i64,
        PunishmentTime::Forever => 0,
    };
    timestamp_after(anchor_time, seconds)
}

/// The restriction that carries out a punishment of `user_id` in `chat_id`
/// until the Unix time `until`.
pub open spec fn restriction(
    kind: PunishmentKind,
    chat_id: i64,
    user_id: i64,
    until: i64,
) -> EffectView {
    match kind {
        PunishmentKind::Ban => EffectView::Ban { chat_id, user_id, until },
        PunishmentKind::Mute => EffectView::Mute { chat_id, user_id, until },
        PunishmentKind::Restrict(permissions) => EffectView::Restrict {
            chat_id,
            user_id,
            permissions,
            until,
        },
    }
}

/// The restriction that punishes `user_id` in `chat_id` for a message sent at
/// `anchor_time`.
pub fn punish_user(
    chat_id: i64,
    anchor_time: i64,
    user_id: i64,
    punishment: &Punishment,
) -> (effect: Effect)
    requires
        expiry_in_range(punishment.time, anchor_time),
    ensures
        effect@ == restriction(
            punishment.kind,
            chat_id,
            user_id,
            expiry(punishment.time, anchor_time) as i64,
        ),
{
    let until = punishment_expiry(punishment.time, anchor_time);
    match punishment.kind {
        PunishmentKind::Ban => Effect::Ban { chat_id, user_id, until },
        PunishmentKind::Mute => Effect::Mute { chat_id, user_id, until },
        PunishmentKind::Restrict(permissions) => Effect::Restrict {
            chat_id,
            user_id,
            permissions,
            until,
        },
    }
}

/// How the kind of a punishment reads in a message.
pub open spec fn kind_phrase(kind: PunishmentKind) -> Seq<char> {
    match kind {
        PunishmentKind::Mute => " has been muted "@,
        PunishmentKind::Ban => " has been baned "@,
        PunishmentKind::Restrict(_) => " has been restricted "@,
    }
}

/// How the duration of a punishment reads in a message.
pub open spec fn time_phrase(time: PunishmentTime) -> Seq<char> {
    match time {
        PunishmentTime::Time(seconds) => "for a "@ + decimal(seconds as nat) + " seconds."@,
        PunishmentTime::Forever => "forever!"@,
    }
}

/// The announcement of a punishment.
pub open spec fn punished_text(user_name: Seq<char>, punishment: Punishment) -> Seq<char> {
    "User "@ + user_name + kind_phrase(punishment.kind) + time_phrase(punishment.time)
}

/// Writes the announcement that the user called `user_name` was punished.
pub fn message_user_punished(user_name: &str, punishment: &Punishment) -> (res: String)
    ensures
        res@ == punished_text(user_name@, *punishment),
{
    let mut res = String::from_str("User ");
    res.append(user_name);
    match punishment.kind {
        PunishmentKind::Mute => res.append(" has been muted "),
        PunishmentKind::Ban => res.append(" has been baned "),
        PunishmentKind::Restrict(_) => res.append(" has been restricted "),
    }
    match punishment.time {
        PunishmentTime::Time(seconds) => {
            let number = u64_to_string(seconds);
            res.append("for a ");
            res.append(number.as_str());
            res.append(" seconds.");
        },
        PunishmentTime::Forever => res.append("forever!"),
    }
    res
}

} // verus!
