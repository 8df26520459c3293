//! The conversation that defines a new warning type.
//!
//! A conversation is in one of four states, each holding what was collected so
//! far: the target chat, then the warning group, then the points, then the
//! trigger. Every function here is one step of it: from the stored session and
//! one event to the session to store next and the effects to carry out.

use crate::commands::SetupWarnsCommands;
use crate::dto::{
    found_by_name, found_by_trigger, OnWarnAction, WarningGroup, WarningGroupView, WarningInfo,
    WarningInfoView,
};
use crate::effect::{reply, say, silence, Effect, EffectView};
use crate::text::{parse_u64, parsed_u64};
use vstd::prelude::*;
use vstd::string::*;

verus! {

/// The group is known; the points are awaited.
#[derive(Debug, PartialEq)]
pub struct WaitForPointsState {
    /// The chat that the warning type is meant for.
    pub chat_id: i64,
    /// The group that the warning type will belong to.
    pub group: WarningGroup,
}

/// Group and points are known; the trigger is awaited.
#[derive(Debug, PartialEq)]
pub struct WaitForTriggerState {
    pub chat_id: i64,
    pub group: WarningGroup,
    /// The points that a warning of the new type will give.
    pub max_points: u64,
}

/// Everything but the action on the warned message is known.
#[derive(Debug, PartialEq)]
pub struct WaitForOnWarnState {
    pub chat_id: i64,
    pub group: WarningGroup,
    pub max_points: u64,
    /// The phrase that will set the warning off.
    pub trigger: String,
}

/// Where a conversation stands.
#[derive(Debug, PartialEq)]
pub enum SetupWarnState {
    /// Only the chat is known; the name of the group is awaited.
    WaitForWarnGroup(i64),
    WaitForPoints(WaitForPointsState),
    WaitForTrigger(WaitForTriggerState),
    WaitForOnWarn(WaitForOnWarnState),
}

impl Clone for WaitForPointsState {
    fn clone(&self) -> (res: Self)
        ensures
            res == *self,
    {
        WaitForPointsState { chat_id: self.chat_id, group: self.group.clone() }
    }
}

impl Clone for WaitForTriggerState {
    fn clone(&self) -> (res: Self)
        ensures
            res == *self,
    {
        WaitForTriggerState {
            chat_id: self.chat_id,
            group: self.group.clone(),
            max_points: self.max_points,
        }
    }
}

impl Clone for WaitForOnWarnState {
    fn clone(&self) -> (res: Self)
        ensures
            res == *self,
    {
        WaitForOnWarnState {
            chat_id: self.chat_id,
            group: self.group.clone(),
            max_points: self.max_points,
            trigger: self.trigger.clone(),
        }
    }
}

impl Clone for SetupWarnState {
    fn clone(&self) -> (res: Self)
        ensures
            res == *self,
    {
        match self {
            SetupWarnState::WaitForWarnGroup(chat_id) => SetupWarnState::WaitForWarnGroup(*chat_id),
            SetupWarnState::WaitForPoints(state) => SetupWarnState::WaitForPoints(state.clone()),
            SetupWarnState::WaitForTrigger(state) => SetupWarnState::WaitForTrigger(state.clone()),
            SetupWarnState::WaitForOnWarn(state) => SetupWarnState::WaitForOnWarn(state.clone()),
        }
    }
}

/// The mathematical value of a [`SetupWarnState`].
pub enum SetupWarnStateView {
    WaitForWarnGroup { chat_id: i64 },
    WaitForPoints { chat_id: i64, group: WarningGroupView },
    WaitForTrigger { chat_id: i64, group: WarningGroupView, max_points: u64 },
    WaitForOnWarn { chat_id: i64, group: WarningGroupView, max_points: u64, trigger: Seq<char> },
}

impl View for SetupWarnState {
    type V = SetupWarnStateView;

    open spec fn view(&self) -> SetupWarnStateView {
        match *self {
            SetupWarnState::WaitForWarnGroup(chat_id) => SetupWarnStateView::WaitForWarnGroup {
                chat_id,
            },
            SetupWarnState::WaitForPoints(s) => SetupWarnStateView::WaitForPoints {
                chat_id: s.chat_id,
                group: s.group@,
            },
            SetupWarnState::WaitForTrigger(s) => SetupWarnStateView::WaitForTrigger {
                chat_id: s.chat_id,
                group: s.group@,
                max_points: s.max_points,
            },
            SetupWarnState::WaitForOnWarn(s) => SetupWarnStateView::WaitForOnWarn {
                chat_id: s.chat_id,
                group: s.group@,
                max_points: s.max_points,
                trigger: s.trigger@,
            },
        }
    }
}

impl DeepView for SetupWarnState {
    type V = SetupWarnStateView;

    open spec fn deep_view(&self) -> SetupWarnStateView {
        self@
    }
}

impl Default for SetupWarnState {
    /// The state that stands for "no conversation": waiting for a group with
    /// chat id 0.
    fn default() -> (res: Self)
        ensures
            res@ == (SetupWarnStateView::WaitForWarnGroup { chat_id: 0 }),
    {
        SetupWarnState::WaitForWarnGroup(0)
    }
}

/// A button press, reduced to what the conversation reads of it.
#[derive(Debug, PartialEq)]
pub struct CallbackQuery {
    pub id: String,
    /// The data of the button, if the press carried any.
    pub data: Option<String>,
    /// Chat and id of the message that showed the buttons, if it is still known.
    pub message: Option<(i64, i32)>,
}

/// The mathematical value of a [`CallbackQuery`].
pub struct CallbackQueryView {
    pub id: Seq<char>,
    pub data: Option<Seq<char>>,
    pub message: Option<(i64, i32)>,
}

impl View for CallbackQuery {
    type V = CallbackQueryView;

    open spec fn view(&self) -> CallbackQueryView {
        CallbackQueryView { id: self.id@, data: self.data.deep_view(), message: self.message }
    }
}

/// The result of one step: the session to store (`None` clears it) and the
/// effects to carry out, in order.
#[derive(Debug, PartialEq)]
pub struct SetupStep {
    pub session: Option<SetupWarnState>,
    pub effects: Vec<Effect>,
}

/// The mathematical value of a [`SetupStep`].
pub struct SetupStepView {
    pub session: Option<SetupWarnStateView>,
    pub effects: Seq<EffectView>,
}

impl View for SetupStep {
    type V = SetupStepView;

    open spec fn view(&self) -> SetupStepView {
        SetupStepView { session: self.session.deep_view(), effects: self.effects.deep_view() }
    }
}

/// The label of the button that asks for the warned message to be deleted.
pub const DELETE_LABEL: &'static str = "Delete message";

/// The data that a press of the delete button carries.
pub const DELETE_DATA: &'static str = "delete";

/// The label of the button that asks for the warned message to be kept.
pub const NOTHING_LABEL: &'static str = "Do nothing";

/// The data that a press of the keep button carries.
pub const NOTHING_DATA: &'static str = "nothing";

/// What a command does to a session, whatever its state.
///
/// `NewWarn` opens a conversation where none is open and is turned down where
/// one is; `Cancel` always ends up with no conversation.
pub open spec fn setup_command_step(
    session: Option<SetupWarnStateView>,
    reply_chat: i64,
    cmd: SetupWarnsCommands,
) -> SetupStepView {
    match cmd {
        SetupWarnsCommands::NewWarn { chat_id } => match session {
            Some(_) => SetupStepView {
                session,
                effects: say(reply_chat, "You already setup new warn type."@),
            },
            None => SetupStepView {
                session: Some(SetupWarnStateView::WaitForWarnGroup { chat_id }),
                effects: say(
                    reply_chat,
                    "Good. Send me the name of the warn group the warn must relate to."@,
                ),
            },
        },
        SetupWarnsCommands::Cancel => SetupStepView {
            session: None,
            effects: say(reply_chat, "Cancelled."@),
        },
    }
}

/// Handles `NewWarn` and `Cancel`. `reply_chat` is the chat the command came
/// from, which gets the answer.
pub fn handle_setup_warns_commands(
    session: Option<SetupWarnState>,
    reply_chat: i64,
    cmd: &SetupWarnsCommands,
) -> (step: SetupStep)
    ensures
        step@ == setup_command_step(session.deep_view(), reply_chat, *cmd),
{
    match cmd {
        SetupWarnsCommands::NewWarn { chat_id } => match session {
            Some(state) => SetupStep {
                session: Some(state),
                effects: reply(reply_chat, "You already setup new warn type."),
            },
            None => SetupStep {
                session: Some(SetupWarnState::WaitForWarnGroup(*chat_id)),
                effects: reply(
                    reply_chat,
                    "Good. Send me the name of the warn group the warn must relate to.",
                ),
            },
        },
        SetupWarnsCommands::Cancel => SetupStep {
            session: None,
            effects: reply(reply_chat, "Cancelled."),
        },
    }
}

/// The step of a conversation that waits for the name of a warning group.
///
/// A message without text changes nothing. A text that names a group of the
/// catalog moves on to the points; any other text asks again.
pub open spec fn warn_group_step(
    reply_chat: i64,
    text: Option<Seq<char>>,
    found: Option<WarningGroupView>,
    chat_id: i64,
) -> SetupStepView {
    match text {
        None => SetupStepView {
            session: Some(SetupWarnStateView::WaitForWarnGroup { chat_id }),
            effects: Seq::empty(),
        },
        Some(t) => if found_by_name(t, found) {
            SetupStepView {
                session: Some(SetupWarnStateView::WaitForPoints { chat_id, group: found->0 }),
                effects: say(
                    reply_chat,
                    "Good. Now send me amount of the points the user will receive by this warn."@,
                ),
            }
        } else {
            SetupStepView {
                session: Some(SetupWarnStateView::WaitForWarnGroup { chat_id }),
                effects: say(
                    reply_chat,
                    "There are no such warn group. Send me the name of the warn group the warn must relate to."@,
                ),
            }
        },
    }
}

/// Handles a message while the group's name is awaited. `found` is what the
/// catalog holds under the message's text as a group name.
pub fn wait_for_warn_group_handler(
    reply_chat: i64,
    text: &Option<String>,
    found: Option<WarningGroup>,
    chat_id: i64,
) -> (step: SetupStep)
    ensures
        step@ == warn_group_step(reply_chat, text.deep_view(), found.deep_view(), chat_id),
{
    let text = match text {
        Some(text) => text,
        None => {
            return SetupStep {
                session: Some(SetupWarnState::WaitForWarnGroup(chat_id)),
                effects: silence(),
            };
        },
    };
    match found {
        Some(group) => {
            if group.name == *text {
                return SetupStep {
                    session: Some(
                        SetupWarnState::WaitForPoints(WaitForPointsState { chat_id, group }),
                    ),
                    effects: reply(
                        reply_chat,
                        "Good. Now send me amount of the points the user will receive by this warn.",
                    ),
                };
            }
        },
        None => {},
    }
    SetupStep {
        session: Some(SetupWarnState::WaitForWarnGroup(chat_id)),
        effects: reply(
            reply_chat,
            "There are no such warn group. Send me the name of the warn group the warn must relate to.",
        ),
    }
}

/// The step of a conversation that waits for the points of the new warning.
///
/// A message without text changes nothing. A text that reads as an unsigned
/// number moves on to the trigger; any other text asks again.
pub open spec fn points_step(
    reply_chat: i64,
    text: Option<Seq<char>>,
    chat_id: i64,
    group: WarningGroupView,
) -> SetupStepView {
    match text {
        None => SetupStepView {
            session: Some(SetupWarnStateView::WaitForPoints { chat_id, group }),
            effects: Seq::empty(),
        },
        Some(t) => match parsed_u64(t) {
            Some(max_points) => SetupStepView {
                session: Some(SetupWarnStateView::WaitForTrigger { chat_id, group, max_points }),
                effects: say(
                    reply_chat,
                    "Good. Now send me a text trigger for the warn. It then will be used by `/warn <trigger>` format."@,
                ),
            },
            None => SetupStepView {
                session: Some(SetupWarnStateView::WaitForPoints { chat_id, group }),
                effects: say(
                    reply_chat,
                    "Send me the maximum points the user receive before they gets punished."@,
                ),
            },
        },
    }
}

/// Handles a message while the points are awaited.
pub fn wait_for_points_handler(
    reply_chat: i64,
    text: &Option<String>,
    state: WaitForPointsState,
) -> (step: SetupStep)
    ensures
        step@ == points_step(reply_chat, text.deep_view(), state.chat_id, state.group@),
{
    let text = match text {
        Some(text) => text,
        None => {
            return SetupStep {
                session: Some(SetupWarnState::WaitForPoints(state)),
                effects: silence(),
            };
        },
    };
    match parse_u64(text.as_str()) {
        Some(max_points) => SetupStep {
            session: Some(
                SetupWarnState::WaitForTrigger(
                    WaitForTriggerState { chat_id: state.chat_id, group: state.group, max_points },
                ),
            ),
            effects: reply(
                reply_chat,
                "Good. Now send me a text trigger for the warn. It then will be used by `/warn <trigger>` format.",
            ),
        },
        None => SetupStep {
            session: Some(SetupWarnState::WaitForPoints(state)),
            effects: reply(
                reply_chat,
                "Send me the maximum points the user receive before they gets punished.",
            ),
        },
    }
}

/// The step of a conversation that waits for the trigger of the new warning.
///
/// A message without text changes nothing. A text that is already a trigger
/// is turned down and the session stays as it is; any other text becomes the
/// trigger, and the two buttons are shown.
pub open spec fn trigger_step(
    reply_chat: i64,
    text: Option<Seq<char>>,
    existing: Option<WarningInfoView>,
    chat_id: i64,
    group: WarningGroupView,
    max_points: u64,
) -> SetupStepView {
    match text {
        None => SetupStepView {
            session: Some(SetupWarnStateView::WaitForTrigger { chat_id, group, max_points }),
            effects: Seq::empty(),
        },
        Some(t) => if found_by_trigger(t, existing) {
            SetupStepView {
                session: Some(SetupWarnStateView::WaitForTrigger { chat_id, group, max_points }),
                effects: say(reply_chat, "Warn with such trigger already exists."@),
            }
        } else {
            SetupStepView {
                session: Some(
                    SetupWarnStateView::WaitForOnWarn { chat_id, group, max_points, trigger: t },
                ),
                effects: seq![
                    EffectView::SendOnWarnChoice {
                        chat_id: reply_chat,
                        text: "Good. Do you want to delete the message you reply to when warning?"@,
                    },
                ],
            }
        },
    }
}

/// Handles a message while the trigger is awaited. `existing` is what the
/// catalog holds under the message's text as a trigger.
pub fn wait_for_trigger_handler(
    reply_chat: i64,
    text: &Option<String>,
    existing: &Option<WarningInfo>,
    state: WaitForTriggerState,
) -> (step: SetupStep)
    ensures
        step@ == trigger_step(
            reply_chat,
            text.deep_view(),
            existing.deep_view(),
            state.chat_id,
            state.group@,
            state.max_points,
        ),
{
    let text = match text {
        Some(text) => text,
        None => {
            return SetupStep {
                session: Some(SetupWarnState::WaitForTrigger(state)),
                effects: silence(),
            };
        },
    };
    match existing {
        Some(info) => {
            if info.trigger == *text {
                return SetupStep {
                    session: Some(SetupWarnState::WaitForTrigger(state)),
                    effects: reply(reply_chat, "Warn with such trigger already exists."),
                };
            }
        },
        None => {},
    }
    let mut effects: Vec<Effect> = Vec::new();
    effects.push(
        Effect::SendOnWarnChoice {
            chat_id: reply_chat,
            text: String::from_str(
                "Good. Do you want to delete the message you reply to when warning?",
            ),
        },
    );
    let step = SetupStep {
        session: Some(
            SetupWarnState::WaitForOnWarn(
                WaitForOnWarnState {
                    chat_id: state.chat_id,
                    group: state.group,
                    max_points: state.max_points,
                    trigger: text.clone(),
                },
            ),
        ),
        effects,
    };
    assert(step@.effects =~= trigger_step(
        reply_chat,
        Some(text@),
        existing.deep_view(),
        state.chat_id,
        state.group@,
        state.max_points,
    ).effects);
    step
}

/// The step of a conversation that waits for a button: any message is
/// answered with a reminder, and the session stays as it is.
pub open spec fn on_warn_text_step(
    reply_chat: i64,
    chat_id: i64,
    group: WarningGroupView,
    max_points: u64,
    trigger: Seq<char>,
) -> SetupStepView {
    SetupStepView {
        session: Some(SetupWarnStateView::WaitForOnWarn { chat_id, group, max_points, trigger }),
        effects: say(reply_chat, "Please, use one of the buttons above."@),
    }
}

/// Handles a message while a button press is awaited.
pub fn wait_for_on_warn_handler(reply_chat: i64, state: WaitForOnWarnState) -> (step: SetupStep)
    ensures
        step@ == on_warn_text_step(
            reply_chat,
            state.chat_id,
            state.group@,
            state.max_points,
            state.trigger@,
        ),
{
    SetupStep {
        session: Some(SetupWarnState::WaitForOnWarn(state)),
        effects: reply(reply_chat, "Please, use one of the buttons above."),
    }
}

/// Which action the data of a button stands for.
pub open spec fn parsed_choice(data: Option<Seq<char>>) -> Option<OnWarnAction> {
    match data {
        Some(d) => if d == DELETE_DATA@ {
            Some(OnWarnAction::DeleteMessage)
        } else if d == NOTHING_DATA@ {
            Some(OnWarnAction::Nothing)
        } else {
            None
        },
        None => None,
    }
}

/// Reads the data of a button press.
pub fn parse_choice(data: &Option<String>) -> (res: Option<OnWarnAction>)
    ensures
        res == parsed_choice(data.deep_view()),
{
    match data {
        Some(d) => {
            if *d == String::from_str(DELETE_DATA) {
                Some(OnWarnAction::DeleteMessage)
            } else if *d == String::from_str(NOTHING_DATA) {
                Some(OnWarnAction::Nothing)
            } else {
                None
            }
        },
        None => None,
    }
}

/// The confirmation that ends a conversation.
pub open spec fn added_text(trigger: Seq<char>) -> Seq<char> {
    "You have added new warn type. To use it use /warn "@ + trigger + " command"@
}

/// The effects that end a conversation: the new warning type is written, the
/// press is acknowledged and, where the message with the buttons is known, it
/// is rewritten and the confirmation follows it.
pub open spec fn finish_effects(info: WarningInfoView, query: CallbackQueryView) -> Seq<
    EffectView,
> {
    let first = seq![
        EffectView::InsertWarnType { info },
        EffectView::AnswerCallbackQuery { query_id: query.id },
    ];
    match query.message {
        Some((chat_id, message_id)) => first + seq![
            EffectView::EditMessageText { chat_id, message_id, text: "Selected."@ },
            EffectView::SendMessage { chat_id, text: added_text(info.trigger) },
        ],
        None => first,
    }
}

/// What a button press does to a session.
///
/// Only a conversation that waits for a button, pressed with one of the two
/// known data, is finished: the session is cleared and the new warning type
/// holds the group, points and trigger that were collected. Any other press
/// changes nothing.
pub open spec fn callback_step(
    session: Option<SetupWarnStateView>,
    query: CallbackQueryView,
) -> SetupStepView {
    match session {
        Some(SetupWarnStateView::WaitForOnWarn { chat_id, group, max_points, trigger }) => {
            match parsed_choice(query.data) {
                Some(on_warn) => SetupStepView {
                    session: None,
                    effects: finish_effects(
                        WarningInfoView { trigger, points: max_points, group, on_warn },
                        query,
                    ),
                },
                None => SetupStepView { session, effects: Seq::empty() },
            }
        },
        _ => SetupStepView { session, effects: Seq::empty() },
    }
}

/// Handles a button press.
pub fn wait_for_on_warn_callback_query_handler(
    session: Option<SetupWarnState>,
    query: &CallbackQuery,
) -> (step: SetupStep)
    ensures
        step@ == callback_step(session.deep_view(), query@),
{
    let state = match session {
        Some(SetupWarnState::WaitForOnWarn(state)) => state,
        other => {
            return SetupStep { session: other, effects: silence() };
        },
    };
    let on_warn = match parse_choice(&query.data) {
        Some(on_warn) => on_warn,
        None => {
            return SetupStep {
                session: Some(SetupWarnState::WaitForOnWarn(state)),
                effects: silence(),
            };
        },
    };
    let mut text = String::from_str("You have added new warn type. To use it use /warn ");
    text.append(state.trigger.as_str());
    text.append(" command");
    let info = WarningInfo {
        trigger: state.trigger,
        points: state.max_points,
        group: state.group,
        on_warn,
    };
    let ghost expected = finish_effects(info@, query@);
    let mut effects: Vec<Effect> = Vec::new();
    effects.push(Effect::InsertWarnType { info });
    effects.push(Effect::AnswerCallbackQuery { query_id: query.id.clone() });
    match query.message {
        Some((chat_id, message_id)) => {
            effects.push(
                Effect::EditMessageText {
                    chat_id,
                    message_id,
                    text: String::from_str("Selected."),
                },
            );
            effects.push(Effect::SendMessage { chat_id, text });
        },
        None => {},
    }
    assert(effects.deep_view() =~= expected);
    SetupStep { session: None, effects }
}

} // verus!
