//! The data model: warning groups, warning types and infraction records.

use vstd::prelude::*;

verus! {

/// What happens to the offending message once a warning has been issued.
#[derive(Debug, Clone, Copy, PartialEq, Eq, Structural)]
pub enum OnWarnAction {
    DeleteMessage,
    Nothing,
}

/// How long a punishment lasts.
#[derive(Debug, Clone, Copy, PartialEq, Eq, Structural)]
pub enum PunishmentTime {
    /// A number of seconds.
    Time(u64),
    Forever,
}

/// The set of things a restricted user may still do, one bit per permission.
#[derive(Debug, Clone, Copy, PartialEq, Eq, Structural)]
pub struct ChatPermissions {
    pub bits: u8,
}

impl ChatPermissions {
    /// No permission at all.
    pub fn empty() -> (res: Self)
        ensures
            res.bits == 0,
    {
        ChatPermissions { bits: 0 }
    }
}

/// What a punishment does to a user.
#[derive(Debug, Clone, Copy, PartialEq, Eq, Structural)]
pub enum PunishmentKind {
    /// The user is removed from the chat.
    Ban,
    /// The user stays and may do nothing.
    Mute,
    /// The user stays and may do what the permissions allow.
    Restrict(ChatPermissions),
}

/// What reaching the threshold of a group brings: a restriction and its
/// duration.
#[derive(Debug, Clone, Copy, PartialEq, Eq, Structural)]
pub struct Punishment {
    pub time: PunishmentTime,
    pub kind: PunishmentKind,
}

/// A named bucket of warnings with its threshold and its punishment.
#[derive(Debug, PartialEq)]
pub struct WarningGroup {
    pub name: String,
    pub max_points: u64,
    pub punishment: Punishment,
}

/// The mathematical value of a [`WarningGroup`].
pub struct WarningGroupView {
    pub name: Seq<char>,
    pub max_points: u64,
    pub punishment: Punishment,
}

impl View for WarningGroup {
    type V = WarningGroupView;

    open spec fn view(&self) -> WarningGroupView {
        WarningGroupView {
            name: self.name@,
            max_points: self.max_points,
            punishment: self.punishment,
        }
    }
}

impl DeepView for WarningGroup {
    type V = WarningGroupView;

    open spec fn deep_view(&self) -> WarningGroupView {
        self@
    }
}

impl Clone for WarningGroup {
    fn clone(&self) -> (res: Self)
        ensures
            res == *self,
    {
        WarningGroup {
            name: self.name.clone(),
            max_points: self.max_points,
            punishment: self.punishment,
        }
    }
}

/// A warning type: the trigger phrase, its weight, a snapshot of its group
/// taken when the type was created, and what to do with the message.
#[derive(Debug, PartialEq)]
pub struct WarningInfo {
    pub trigger: String,
    pub points: u64,
    pub group: WarningGroup,
    pub on_warn: OnWarnAction,
}

/// The mathematical value of a [`WarningInfo`].
pub struct WarningInfoView {
    pub trigger: Seq<char>,
    pub points: u64,
    pub group: WarningGroupView,
    pub on_warn: OnWarnAction,
}

impl View for WarningInfo {
    type V = WarningInfoView;

    open spec fn view(&self) -> WarningInfoView {
        WarningInfoView {
            trigger: self.trigger@,
            points: self.points,
            group: self.group@,
            on_warn: self.on_warn,
        }
    }
}

impl DeepView for WarningInfo {
    type V = WarningInfoView;

    open spec fn deep_view(&self) -> WarningInfoView {
        self@
    }
}

impl Clone for WarningInfo {
    fn clone(&self) -> (res: Self)
        ensures
            res == *self,
    {
        WarningInfo {
            trigger: self.trigger.clone(),
            points: self.points,
            group: self.group.clone(),
            on_warn: self.on_warn,
        }
    }
}

/// One infraction: who was warned, and a snapshot of the warning type.
#[derive(Debug, PartialEq)]
pub struct UserWarning {
    pub user_id: i64,
    pub info: WarningInfo,
}

/// The mathematical value of a [`UserWarning`].
pub struct UserWarningView {
    pub user_id: i64,
    pub info: WarningInfoView,
}

impl View for UserWarning {
    type V = UserWarningView;

    open spec fn view(&self) -> UserWarningView {
        UserWarningView { user_id: self.user_id, info: self.info@ }
    }
}

impl DeepView for UserWarning {
    type V = UserWarningView;

    open spec fn deep_view(&self) -> UserWarningView {
        self@
    }
}

impl Clone for UserWarning {
    fn clone(&self) -> (res: Self)
        ensures
            res == *self,
    {
        UserWarning { user_id: self.user_id, info: self.info.clone() }
    }
}

/// The catalog's answer to a search by group name holds a group of that name.
pub open spec fn found_by_name(name: Seq<char>, found: Option<WarningGroupView>) -> bool {
    found matches Some(group) && group.name == name
}

/// The catalog's answer to a search by trigger holds a warning type with that
/// trigger.
pub open spec fn found_by_trigger(trigger: Seq<char>, found: Option<WarningInfoView>) -> bool {
    found matches Some(info) && info.trigger == trigger
}

} // verus!
