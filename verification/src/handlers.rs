//! The entry points of the setup conversation: the guard that every event
//! passes first, and the dispatch on the session's state.

use crate::commands::SetupWarnsCommands;
use crate::dto::{WarningGroup, WarningGroupView, WarningInfo, WarningInfoView};
use crate::effect::silence;
use crate::setup_warns::{
    callback_step, handle_setup_warns_commands, on_warn_text_step, points_step,
    setup_command_step, trigger_step, wait_for_on_warn_callback_query_handler,
    wait_for_on_warn_handler, wait_for_points_handler, wait_for_trigger_handler,
    wait_for_warn_group_handler, warn_group_step, CallbackQuery, CallbackQueryView,
    SetupStep, SetupStepView, SetupWarnState, SetupWarnStateView,
};
use vstd::prelude::*;

verus! {

/// What the catalog holds under the text of a message: the group of that
/// name, and the warning type with that trigger.
#[derive(Debug, PartialEq)]
pub struct CatalogLookup {
    pub group: Option<WarningGroup>,
    pub warn: Option<WarningInfo>,
}

/// The mathematical value of a [`CatalogLookup`].
pub struct CatalogLookupView {
    pub group: Option<WarningGroupView>,
    pub warn: Option<WarningInfoView>,
}

impl View for CatalogLookup {
    type V = CatalogLookupView;

    open spec fn view(&self) -> CatalogLookupView {
        CatalogLookupView { group: self.group.deep_view(), warn: self.warn.deep_view() }
    }
}

/// A message of a chat owner, as the conversation sees it.
#[derive(Debug, PartialEq)]
pub enum SetupInput {
    /// One of the two commands.
    Command(SetupWarnsCommands),
    /// Any other message, with its text if it has one.
    Text(Option<String>),
}

/// The mathematical value of a [`SetupInput`].
pub enum SetupInputView {
    Command(SetupWarnsCommands),
    Text(Option<Seq<char>>),
}

impl View for SetupInput {
    type V = SetupInputView;

    open spec fn view(&self) -> SetupInputView {
        match *self {
            SetupInput::Command(cmd) => SetupInputView::Command(cmd),
            SetupInput::Text(text) => SetupInputView::Text(text.deep_view()),
        }
    }
}

/// The stored value that means the same as no session at all: waiting for a
/// group with chat id 0.
pub open spec fn is_sentinel(session: Option<SetupWarnStateView>) -> bool {
    session == Some(SetupWarnStateView::WaitForWarnGroup { chat_id: 0 })
}

/// The session an event is handled with: none, where the stored one is the
/// sentinel.
pub open spec fn guarded(session: Option<SetupWarnStateView>) -> Option<SetupWarnStateView> {
    if is_sentinel(session) {
        None
    } else {
        session
    }
}

/// Drops a session that is in the sentinel state.
pub fn guard_session(session: Option<SetupWarnState>) -> (res: Option<SetupWarnState>)
    ensures
        res.deep_view() == guarded(session.deep_view()),
{
    match session {
        Some(SetupWarnState::WaitForWarnGroup(chat_id)) => {
            if chat_id == 0 {
                None
            } else {
                Some(SetupWarnState::WaitForWarnGroup(chat_id))
            }
        },
        other => other,
    }
}

/// What a message that is no command does to a session: nothing where no
/// conversation is open, else the step of the state the conversation is in.
pub open spec fn text_step(
    session: Option<SetupWarnStateView>,
    reply_chat: i64,
    text: Option<Seq<char>>,
    lookup: CatalogLookupView,
) -> SetupStepView {
    match session {
        None => SetupStepView { session: None, effects: Seq::empty() },
        Some(SetupWarnStateView::WaitForWarnGroup { chat_id }) => warn_group_step(
            reply_chat,
            text,
            lookup.group,
            chat_id,
        ),
        Some(SetupWarnStateView::WaitForPoints { chat_id, group }) => points_step(
            reply_chat,
            text,
            chat_id,
            group,
        ),
        Some(SetupWarnStateView::WaitForTrigger { chat_id, group, max_points }) => trigger_step(
            reply_chat,
            text,
            lookup.warn,
            chat_id,
            group,
            max_points,
        ),
        Some(
            SetupWarnStateView::WaitForOnWarn { chat_id, group, max_points, trigger },
        ) => on_warn_text_step(reply_chat, chat_id, group, max_points, trigger),
    }
}

/// What a message does to a stored session. The guard comes first: a stored
/// sentinel counts as no session, for commands and for texts alike.
pub open spec fn message_step(
    session: Option<SetupWarnStateView>,
    reply_chat: i64,
    input: SetupInputView,
    lookup: CatalogLookupView,
) -> SetupStepView {
    match input {
        SetupInputView::Command(cmd) => setup_command_step(guarded(session), reply_chat, cmd),
        SetupInputView::Text(text) => text_step(guarded(session), reply_chat, text, lookup),
    }
}

/// Handles a message of a chat owner. `session` is what the session store
/// holds for the conversation, `reply_chat` the chat the message came from,
/// and `lookup` what the catalog holds under the message's text.
pub fn setup_warnings_handler(
    session: Option<SetupWarnState>,
    reply_chat: i64,
    input: &SetupInput,
    lookup: CatalogLookup,
) -> (step: SetupStep)
    ensures
        step@ == message_step(session.deep_view(), reply_chat, input@, lookup@),
{
    let session = guard_session(session);
    match input {
        SetupInput::Command(cmd) => handle_setup_warns_commands(session, reply_chat, cmd),
        SetupInput::Text(text) => match session {
            None => SetupStep { session: None, effects: silence() },
            Some(SetupWarnState::WaitForWarnGroup(chat_id)) => wait_for_warn_group_handler(
                reply_chat,
                text,
                lookup.group,
                chat_id,
            ),
            Some(SetupWarnState::WaitForPoints(state)) => wait_for_points_handler(
                reply_chat,
                text,
                state,
            ),
            Some(SetupWarnState::WaitForTrigger(state)) => wait_for_trigger_handler(
                reply_chat,
                text,
                &lookup.warn,
                state,
            ),
            Some(SetupWarnState::WaitForOnWarn(state)) => wait_for_on_warn_handler(
                reply_chat,
                state,
            ),
        },
    }
}

/// Handles a button press, after the same guard.
pub fn setup_warnings_callback_queries_handler(
    session: Option<SetupWarnState>,
    query: &CallbackQuery,
) -> (step: SetupStep)
    ensures
        step@ == callback_step(guarded(session.deep_view()), query@),
{
    wait_for_on_warn_callback_query_handler(guard_session(session), query)
}

} // verus!
