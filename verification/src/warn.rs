//! The evaluation of a warning: whether it only adds points or sets off the
//! group's punishment, and what has to be done either way.

use crate::commands::{WarnsCommand, WarnsCommandView};
use crate::dto::{
    found_by_trigger, OnWarnAction, UserWarning, UserWarningView, WarningInfo, WarningInfoView,
};
use crate::effect::{reply, say, Effect, EffectView};
use crate::repository::{WarnsRepository, WarnsRepositoryView};
use crate::punish::{
    expiry, expiry_in_range, expiry_is_representable, message_user_punished, punish_user,
    punished_text, restriction,
};
use crate::text::{decimal, u64_to_string};
use vstd::prelude::*;
use vstd::string::*;

verus! {

/// A chat member, reduced to what the engine reads: the id and the name that
/// messages address them by.
#[derive(Debug, PartialEq)]
pub struct User {
    pub id: i64,
    pub full_name: String,
}

/// The mathematical value of a [`User`].
pub struct UserView {
    pub id: i64,
    pub full_name: Seq<char>,
}

impl View for User {
    type V = UserView;

    open spec fn view(&self) -> UserView {
        UserView { id: self.id, full_name: self.full_name@ }
    }
}

impl DeepView for User {
    type V = UserView;

    open spec fn deep_view(&self) -> UserView {
        self@
    }
}

impl Clone for User {
    fn clone(&self) -> (res: Self)
        ensures
            res == *self,
    {
        User { id: self.id, full_name: self.full_name.clone() }
    }
}

/// The message that a warn command replies to.
#[derive(Debug, PartialEq)]
pub struct RepliedMessage {
    pub chat_id: i64,
    pub message_id: i32,
    /// Its author, if it has one.
    pub from: Option<User>,
}

/// The mathematical value of a [`RepliedMessage`].
pub struct RepliedMessageView {
    pub chat_id: i64,
    pub message_id: i32,
    pub from: Option<UserView>,
}

impl View for RepliedMessage {
    type V = RepliedMessageView;

    open spec fn view(&self) -> RepliedMessageView {
        RepliedMessageView {
            chat_id: self.chat_id,
            message_id: self.message_id,
            from: self.from.deep_view(),
        }
    }
}

impl DeepView for RepliedMessage {
    type V = RepliedMessageView;

    open spec fn deep_view(&self) -> RepliedMessageView {
        self@
    }
}

/// The message that holds a warn command.
#[derive(Debug, PartialEq)]
pub struct WarnMessage {
    pub chat_id: i64,
    /// When it was sent, as a Unix time. Punishments count from here.
    pub date: i64,
    pub reply_to: Option<RepliedMessage>,
}

/// The mathematical value of a [`WarnMessage`].
pub struct WarnMessageView {
    pub chat_id: i64,
    pub date: i64,
    pub reply_to: Option<RepliedMessageView>,
}

impl View for WarnMessage {
    type V = WarnMessageView;

    open spec fn view(&self) -> WarnMessageView {
        WarnMessageView {
            chat_id: self.chat_id,
            date: self.date,
            reply_to: self.reply_to.deep_view(),
        }
    }
}

impl WarnMessage {
    /// Whom a warn command in this message is aimed at.
    pub fn target(&self) -> (res: Option<&User>)
        ensures
            res.deep_view() == target_user(self@),
    {
        match &self.reply_to {
            Some(replied) => match &replied.from {
                Some(user) => Some(user),
                None => None,
            },
            None => None,
        }
    }
}

/// Why a warning was not issued.
#[derive(Debug, Clone, Copy, PartialEq, Eq, Structural)]
pub enum WarnError {
    /// The command replies to no message, or to one without an author.
    NoTargetUser,
    /// No warning type has the trigger.
    UnknownTrigger,
    /// The chat platform turned the restriction down.
    PunishmentApplyFailed,
}

/// How a warning ended.
#[derive(Debug, Clone, Copy, PartialEq, Eq, Structural)]
pub enum WarnOutcome {
    /// The user now has this many points in the group.
    Warned { points: u64 },
    /// The threshold was reached.
    Punished,
}

/// Whether a warning sets off the punishment of its group: the user's points
/// so far plus those of the warning reach the threshold.
pub open spec fn punishes(points: int, warn: WarningInfoView) -> bool {
    points + warn.points >= warn.group.max_points
}

/// Decides between adding points and punishing.
pub fn evaluate(points: u128, warn: &WarningInfo) -> (res: WarnOutcome)
    ensures
        res == warn_outcome(points as int, warn@),
{
    if points >= warn.group.max_points as u128 {
        return WarnOutcome::Punished;
    }
    let new_points: u128 = points + warn.points as u128;
    if new_points >= warn.group.max_points as u128 {
        WarnOutcome::Punished
    } else {
        WarnOutcome::Warned { points: new_points as u64 }
    }
}

/// How a warning ends for a user with `points` points so far.
pub open spec fn warn_outcome(points: int, warn: WarningInfoView) -> WarnOutcome {
    if punishes(points, warn) {
        WarnOutcome::Punished
    } else {
        WarnOutcome::Warned { points: (points + warn.points) as u64 }
    }
}

/// The notice that a user was warned.
pub open spec fn warned_text(user_name: Seq<char>, points: nat, max_points: nat) -> Seq<char> {
    user_name + " has been warned! "@ + decimal(points) + "/"@ + decimal(max_points)
        + " points."@
}

/// What a warning asks for.
///
/// Below the threshold: the infraction is recorded, then the user is told
/// their points. At or above it: the user is restricted, then their active
/// infractions in the group are archived, then the punishment is announced.
/// The archive comes after the restriction, so that a restriction that fails
/// leaves the ledger as it was.
pub open spec fn warn_effects(
    chat_id: i64,
    anchor_time: i64,
    user: UserView,
    warn: WarningInfoView,
    points: int,
) -> Seq<EffectView> {
    if punishes(points, warn) {
        seq![
            restriction(
                warn.group.punishment.kind,
                chat_id,
                user.id,
                expiry(warn.group.punishment.time, anchor_time) as i64,
            ),
            EffectView::ArchiveWarns { user_id: user.id, group_name: warn.group.name },
            EffectView::SendMessage {
                chat_id,
                text: punished_text(user.full_name, warn.group.punishment),
            },
        ]
    } else {
        seq![
            EffectView::InsertWarn { warn: UserWarningView { user_id: user.id, info: warn } },
            EffectView::SendMessage {
                chat_id,
                text: warned_text(
                    user.full_name,
                    (points + warn.points) as nat,
                    warn.group.max_points as nat,
                ),
            },
        ]
    }
}

/// Warns `user` in `chat_id` for a message sent at `anchor_time`. `points` is
/// the sum of the user's active points in the warning's group.
///
/// A punishment needs an end that a date-time can hold.
pub fn warn_user(
    chat_id: i64,
    anchor_time: i64,
    user: &User,
    warn: &WarningInfo,
    points: u128,
) -> (effects: Vec<Effect>)
    requires
        punishes(points as int, warn@) ==> expiry_in_range(
            warn.group.punishment.time,
            anchor_time,
        ),
    ensures
        effects.deep_view() == warn_effects(chat_id, anchor_time, user@, warn@, points as int),
{
    let mut effects: Vec<Effect> = Vec::new();
    match evaluate(points, warn) {
        WarnOutcome::Punished => {
            effects.push(punish_user(chat_id, anchor_time, user.id, &warn.group.punishment));
            effects.push(
                Effect::ArchiveWarns { user_id: user.id, group_name: warn.group.name.clone() },
            );
            effects.push(
                Effect::SendMessage {
                    chat_id,
                    text: message_user_punished(user.full_name.as_str(), &warn.group.punishment),
                },
            );
        },
        WarnOutcome::Warned { points: new_points } => {
            let mut text = user.full_name.clone();
            text.append(" has been warned! ");
            text.append(u64_to_string(new_points).as_str());
            text.append("/");
            text.append(u64_to_string(warn.group.max_points).as_str());
            text.append(" points.");
            effects.push(
                Effect::InsertWarn { warn: UserWarning { user_id: user.id, info: warn.clone() } },
            );
            effects.push(Effect::SendMessage { chat_id, text });
        },
    }
    effects
}

/// What the action of a warning type asks for: the deletion of the message
/// that was replied to, or nothing.
pub open spec fn on_warn_effects(chat_id: i64, message_id: i32, action: OnWarnAction) -> Seq<
    EffectView,
> {
    match action {
        OnWarnAction::DeleteMessage => seq![EffectView::DeleteMessage { chat_id, message_id }],
        OnWarnAction::Nothing => Seq::empty(),
    }
}

/// Carries out the action of a warning type on the message that was replied to.
pub fn on_warn(chat_id: i64, message_id: i32, action: OnWarnAction) -> (effects: Vec<Effect>)
    ensures
        effects.deep_view() == on_warn_effects(chat_id, message_id, action),
{
    let mut effects: Vec<Effect> = Vec::new();
    match action {
        OnWarnAction::DeleteMessage => {
            effects.push(Effect::DeleteMessage { chat_id, message_id });
        },
        OnWarnAction::Nothing => {},
    }
    effects
}

/// What the engine reports of a warn command: how it ended, and the effects
/// to carry out, in order.
#[derive(Debug, PartialEq)]
pub struct WarnReport {
    pub outcome: Result<WarnOutcome, WarnError>,
    pub effects: Vec<Effect>,
}

/// The mathematical value of a [`WarnReport`].
pub struct WarnReportView {
    pub outcome: Result<WarnOutcome, WarnError>,
    pub effects: Seq<EffectView>,
}

impl View for WarnReport {
    type V = WarnReportView;

    open spec fn view(&self) -> WarnReportView {
        WarnReportView { outcome: self.outcome, effects: self.effects.deep_view() }
    }
}

/// Whom a warn command is aimed at: the author of the message it replies to.
pub open spec fn target_user(mes: WarnMessageView) -> Option<UserView> {
    match mes.reply_to {
        Some(replied) => replied.from,
        None => None,
    }
}

/// Whether a warn command gets as far as a punishment.
pub open spec fn command_punishes(
    cmd: WarnsCommandView,
    mes: WarnMessageView,
    found: Option<WarningInfoView>,
    points: int,
) -> bool {
    target_user(mes) is Some && found_by_trigger(cmd->trigger, found) && punishes(
        points,
        found->0,
    )
}

/// What a warn command comes to.
///
/// Without a user to aim at it fails with `NoTargetUser`, and with a trigger
/// that the catalog does not hold with `UnknownTrigger`; either way the only
/// effect is the message that says so. Else the warning is evaluated, and the
/// action of the warning type follows, whichever way the evaluation went.
pub open spec fn warn_command_report(
    cmd: WarnsCommandView,
    mes: WarnMessageView,
    found: Option<WarningInfoView>,
    points: int,
) -> WarnReportView {
    match target_user(mes) {
        None => WarnReportView {
            outcome: Err(WarnError::NoTargetUser),
            effects: say(mes.chat_id, "Reply to a user message to warn."@),
        },
        Some(user) => if found_by_trigger(cmd->trigger, found) {
            let warn = found->0;
            let replied = mes.reply_to->0;
            WarnReportView {
                outcome: Ok(warn_outcome(points, warn)),
                effects: warn_effects(mes.chat_id, mes.date, user, warn, points) + on_warn_effects(
                    replied.chat_id,
                    replied.message_id,
                    warn.on_warn,
                ),
            }
        } else {
            WarnReportView {
                outcome: Err(WarnError::UnknownTrigger),
                effects: say(mes.chat_id, "There are no such warning type."@),
            }
        },
    }
}

/// The report of a command that is turned down with a message.
fn rejection(chat_id: i64, error: WarnError, text: &str) -> (report: WarnReport)
    ensures
        report@ == (WarnReportView { outcome: Err(error), effects: say(chat_id, text@) }),
{
    WarnReport { outcome: Err(error), effects: reply(chat_id, text) }
}

/// Tells whether [`handle_warns_commands`] can be asked for these values:
/// whether the command stops short of a punishment or the punishment has an
/// end that a date-time can hold.
pub fn punishment_fits(
    cmd: &WarnsCommand,
    mes: &WarnMessage,
    found: &Option<WarningInfo>,
    points: u128,
) -> (res: bool)
    ensures
        res == (command_punishes(cmd@, mes@, found.deep_view(), points as int) ==> expiry_in_range(
            found->0.group.punishment.time,
            mes.date,
        )),
{
    let WarnsCommand::Warn { trigger } = cmd;
    if mes.target().is_none() {
        return true;
    }
    match found {
        Some(warn) => {
            if warn.trigger == *trigger {
                match evaluate(points, warn) {
                    WarnOutcome::Punished => expiry_is_representable(
                        warn.group.punishment.time,
                        mes.date,
                    ),
                    WarnOutcome::Warned { .. } => true,
                }
            } else {
                true
            }
        },
        None => true,
    }
}

/// Handles a warn command. `mes` is the message that holds it, `found` what
/// the catalog holds under the command's trigger, and `points` the sum of the
/// active points that the author of the replied message has in the group of
/// the warning type found (read as 0 where there is no such user or type).
///
/// A punishment needs an end that a date-time can hold.
pub fn handle_warns_commands(
    cmd: &WarnsCommand,
    mes: &WarnMessage,
    found: &Option<WarningInfo>,
    points: u128,
) -> (report: WarnReport)
    requires
        command_punishes(cmd@, mes@, found.deep_view(), points as int) ==> expiry_in_range(
            found->0.group.punishment.time,
            mes.date,
        ),
    ensures
        report@ == warn_command_report(cmd@, mes@, found.deep_view(), points as int),
{
    let WarnsCommand::Warn { trigger } = cmd;
    let replied = match &mes.reply_to {
        Some(replied) => replied,
        None => {
            return rejection(
                mes.chat_id,
                WarnError::NoTargetUser,
                "Reply to a user message to warn.",
            );
        },
    };
    let user = match &replied.from {
        Some(user) => user,
        None => {
            return rejection(
                mes.chat_id,
                WarnError::NoTargetUser,
                "Reply to a user message to warn.",
            );
        },
    };
    match found {
        Some(warn) => {
            if warn.trigger == *trigger {
                let mut effects = warn_user(mes.chat_id, mes.date, user, warn, points);
                let mut after = on_warn(replied.chat_id, replied.message_id, warn.on_warn);
                let ghost first = effects.deep_view();
                let ghost second = after.deep_view();
                effects.append(&mut after);
                assert(effects.deep_view() =~= first + second);
                return WarnReport { outcome: Ok(evaluate(points, warn)), effects };
            }
        },
        None => {},
    }
    rejection(mes.chat_id, WarnError::UnknownTrigger, "There are no such warning type.")
}

/// The points that count for a warn command: those that the user it is aimed
/// at has in the group of the warning type that the catalog holds under its
/// trigger.
pub open spec fn issue_points(
    repo: WarnsRepositoryView,
    cmd: WarnsCommandView,
    mes: WarnMessageView,
) -> int {
    match (target_user(mes), repo.find_warn_by_trigger(cmd->trigger)) {
        (Some(user), Some(warn)) => repo.user_warn_points(user.id, warn.group.name) as int,
        _ => 0,
    }
}

/// What a warn command comes to against a repository, before anything is
/// carried out.
pub open spec fn issue_plan(
    repo: WarnsRepositoryView,
    cmd: WarnsCommandView,
    mes: WarnMessageView,
) -> WarnReportView {
    warn_command_report(
        cmd,
        mes,
        repo.find_warn_by_trigger(cmd->trigger),
        issue_points(repo, cmd, mes),
    )
}

/// The repository and the report after a warn command was handled and its
/// effects were carried out. A restriction that the chat platform turns down
/// makes the command fail with `PunishmentApplyFailed`.
pub open spec fn issued(
    repo: WarnsRepositoryView,
    cmd: WarnsCommandView,
    mes: WarnMessageView,
    restriction_applies: bool,
) -> (WarnsRepositoryView, WarnReportView) {
    let plan = issue_plan(repo, cmd, mes);
    let (after, done) = repo.settle(plan.effects, restriction_applies);
    (
        after,
        WarnReportView {
            outcome: if done {
                plan.outcome
            } else {
                Err(WarnError::PunishmentApplyFailed)
            },
            effects: plan.effects,
        },
    )
}

/// Whether a warn command against a repository stops short of a punishment
/// or comes to one whose end a date-time can hold.
pub open spec fn issue_fits(
    repo: WarnsRepositoryView,
    cmd: WarnsCommandView,
    mes: WarnMessageView,
) -> bool {
    command_punishes(
        cmd,
        mes,
        repo.find_warn_by_trigger(cmd->trigger),
        issue_points(repo, cmd, mes),
    ) ==> expiry_in_range(
        repo.find_warn_by_trigger(cmd->trigger)->0.group.punishment.time,
        mes.date,
    )
}

/// Reads what a warn command needs of a repository: the warning type under
/// its trigger, and the points that count.
fn read_for_warning(repo: &WarnsRepository, cmd: &WarnsCommand, mes: &WarnMessage) -> (res: (
    Option<WarningInfo>,
    u128,
))
    ensures
        res.0.deep_view() == repo@.find_warn_by_trigger(cmd@->trigger),
        res.1 == issue_points(repo@, cmd@, mes@),
{
    let WarnsCommand::Warn { trigger } = cmd;
    let found = repo.find_warn_by_trigger(trigger);
    let points: u128 = match (mes.target(), &found) {
        (Some(user), Some(warn)) => repo.get_user_warn_points(user.id, &warn.group),
        _ => 0,
    };
    (found, points)
}

/// Issues a warning against an in-memory repository: looks the trigger up,
/// sums the user's points, evaluates the warning and carries its effects out.
/// `restriction_applies` tells whether the chat platform accepts restrictions.
/// The repository is held for the whole of it, so that no other warning can
/// come between the reading of the points and the writing.
///
/// A punishment needs an end that a date-time can hold; [`try_issue_warning`]
/// asks that first.
pub fn issue_warning(
    repo: &mut WarnsRepository,
    cmd: &WarnsCommand,
    mes: &WarnMessage,
    restriction_applies: bool,
) -> (report: WarnReport)
    requires
        issue_fits(old(repo)@, cmd@, mes@),
    ensures
        (final(repo)@, report@) == issued(old(repo)@, cmd@, mes@, restriction_applies),
{
    let (found, points) = read_for_warning(repo, cmd, mes);
    decide_and_settle(repo, cmd, mes, &found, points, restriction_applies)
}

/// Evaluates a warn command on what was read of the repository, and carries
/// its effects out.
fn decide_and_settle(
    repo: &mut WarnsRepository,
    cmd: &WarnsCommand,
    mes: &WarnMessage,
    found: &Option<WarningInfo>,
    points: u128,
    restriction_applies: bool,
) -> (report: WarnReport)
    requires
        found.deep_view() == old(repo)@.find_warn_by_trigger(cmd@->trigger),
        points == issue_points(old(repo)@, cmd@, mes@),
        issue_fits(old(repo)@, cmd@, mes@),
    ensures
        (final(repo)@, report@) == issued(old(repo)@, cmd@, mes@, restriction_applies),
{
    let report = handle_warns_commands(cmd, mes, found, points);
    match repo.settle(&report.effects, restriction_applies) {
        Ok(()) => report,
        Err(error) => WarnReport { outcome: Err(error), effects: report.effects },
    }
}

/// Issues a warning as [`issue_warning`] does, unless it would come to a
/// punishment whose end no date-time can hold: then nothing is done and
/// nothing is reported.
pub fn try_issue_warning(
    repo: &mut WarnsRepository,
    cmd: &WarnsCommand,
    mes: &WarnMessage,
    restriction_applies: bool,
) -> (res: Option<WarnReport>)
    ensures
        issue_fits(old(repo)@, cmd@, mes@) ==> res is Some && (final(repo)@, res->0@) == issued(
            old(repo)@,
            cmd@,
            mes@,
            restriction_applies,
        ),
        !issue_fits(old(repo)@, cmd@, mes@) ==> res is None && final(repo)@ == old(repo)@,
{
    let (found, points) = read_for_warning(repo, cmd, mes);
    if !punishment_fits(cmd, mes, &found, points) {
        return None;
    }
    Some(decide_and_settle(repo, cmd, mes, &found, points, restriction_applies))
}

} // verus!
