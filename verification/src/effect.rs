//! What the engine asks its caller to do: messages to send, restrictions to
//! apply, records to write.

use crate::dto::{ChatPermissions, UserWarning, UserWarningView, WarningInfo, WarningInfoView};
use vstd::prelude::*;
use vstd::string::*;

verus! {

/// One request to the outside world. A caller carries out a list of effects in
/// order and stops at the first one that fails.
#[derive(Debug, PartialEq)]
pub enum Effect {
    /// Send plain text to a chat.
    SendMessage { chat_id: i64, text: String },
    /// Send Markdown text as a reply to a message.
    ReplyMarkdown { chat_id: i64, message_id: i32, text: String },
    /// Send text together with the two buttons that choose what becomes of a
    /// warned message: [`crate::setup_warns::DELETE_LABEL`] and
    /// [`crate::setup_warns::NOTHING_LABEL`].
    SendOnWarnChoice { chat_id: i64, text: String },
    /// Replace the text of a message that was sent earlier.
    EditMessageText { chat_id: i64, message_id: i32, text: String },
    /// Acknowledge a button press.
    AnswerCallbackQuery { query_id: String },
    /// Delete a message.
    DeleteMessage { chat_id: i64, message_id: i32 },
    /// Ban a user until the given Unix time.
    Ban { chat_id: i64, user_id: i64, until: i64 },
    /// Take every permission from a user until the given Unix time.
    Mute { chat_id: i64, user_id: i64, until: i64 },
    /// Leave a user only the given permissions until the given Unix time.
    Restrict { chat_id: i64, user_id: i64, permissions: ChatPermissions, until: i64 },
    /// Add an infraction to the active ones.
    InsertWarn { warn: UserWarning },
    /// Move every active infraction of the user in the group to the archive.
    ArchiveWarns { user_id: i64, group_name: String },
    /// Add a warning type to the catalog.
    InsertWarnType { info: WarningInfo },
}

/// The mathematical value of an [`Effect`].
pub enum EffectView {
    SendMessage { chat_id: i64, text: Seq<char> },
    ReplyMarkdown { chat_id: i64, message_id: i32, text: Seq<char> },
    SendOnWarnChoice { chat_id: i64, text: Seq<char> },
    EditMessageText { chat_id: i64, message_id: i32, text: Seq<char> },
    AnswerCallbackQuery { query_id: Seq<char> },
    DeleteMessage { chat_id: i64, message_id: i32 },
    Ban { chat_id: i64, user_id: i64, until: i64 },
    Mute { chat_id: i64, user_id: i64, until: i64 },
    Restrict { chat_id: i64, user_id: i64, permissions: ChatPermissions, until: i64 },
    InsertWarn { warn: UserWarningView },
    ArchiveWarns { user_id: i64, group_name: Seq<char> },
    InsertWarnType { info: WarningInfoView },
}

impl View for Effect {
    type V = EffectView;

    open spec fn view(&self) -> EffectView {
        match *self {
            Effect::SendMessage { chat_id, text } => EffectView::SendMessage {
                chat_id,
                text: text@,
            },
            Effect::ReplyMarkdown { chat_id, message_id, text } => EffectView::ReplyMarkdown {
                chat_id,
                message_id,
                text: text@,
            },
            Effect::SendOnWarnChoice { chat_id, text } => EffectView::SendOnWarnChoice {
                chat_id,
                text: text@,
            },
            Effect::EditMessageText { chat_id, message_id, text } => EffectView::EditMessageText {
                chat_id,
                message_id,
                text: text@,
            },
            Effect::AnswerCallbackQuery { query_id } => EffectView::AnswerCallbackQuery {
                query_id: query_id@,
            },
            Effect::DeleteMessage { chat_id, message_id } => EffectView::DeleteMessage {
                chat_id,
                message_id,
            },
            Effect::Ban { chat_id, user_id, until } => EffectView::Ban { chat_id, user_id, until },
            Effect::Mute { chat_id, user_id, until } => EffectView::Mute {
                chat_id,
                user_id,
                until,
            },
            Effect::Restrict { chat_id, user_id, permissions, until } => EffectView::Restrict {
                chat_id,
                user_id,
                permissions,
                until,
            },
            Effect::InsertWarn { warn } => EffectView::InsertWarn { warn: warn@ },
            Effect::ArchiveWarns { user_id, group_name } => EffectView::ArchiveWarns {
                user_id,
                group_name: group_name@,
            },
            Effect::InsertWarnType { info } => EffectView::InsertWarnType { info: info@ },
        }
    }
}

impl Clone for Effect {
    fn clone(&self) -> (res: Self)
        ensures
            res == *self,
    {
        match self {
            Effect::SendMessage { chat_id, text } => Effect::SendMessage {
                chat_id: *chat_id,
                text: text.clone(),
            },
            Effect::ReplyMarkdown { chat_id, message_id, text } => Effect::ReplyMarkdown {
                chat_id: *chat_id,
                message_id: *message_id,
                text: text.clone(),
            },
            Effect::SendOnWarnChoice { chat_id, text } => Effect::SendOnWarnChoice {
                chat_id: *chat_id,
                text: text.clone(),
            },
            Effect::EditMessageText { chat_id, message_id, text } => Effect::EditMessageText {
                chat_id: *chat_id,
                message_id: *message_id,
                text: text.clone(),
            },
            Effect::AnswerCallbackQuery { query_id } => Effect::AnswerCallbackQuery {
                query_id: query_id.clone(),
            },
            Effect::DeleteMessage { chat_id, message_id } => Effect::DeleteMessage {
                chat_id: *chat_id,
                message_id: *message_id,
            },
            Effect::Ban { chat_id, user_id, until } => Effect::Ban {
                chat_id: *chat_id,
                user_id: *user_id,
                until: *until,
            },
            Effect::Mute { chat_id, user_id, until } => Effect::Mute {
                chat_id: *chat_id,
                user_id: *user_id,
                until: *until,
            },
            Effect::Restrict { chat_id, user_id, permissions, until } => Effect::Restrict {
                chat_id: *chat_id,
                user_id: *user_id,
                permissions: *permissions,
                until: *until,
            },
            Effect::InsertWarn { warn } => Effect::InsertWarn { warn: warn.clone() },
            Effect::ArchiveWarns { user_id, group_name } => Effect::ArchiveWarns {
                user_id: *user_id,
                group_name: group_name.clone(),
            },
            Effect::InsertWarnType { info } => Effect::InsertWarnType { info: info.clone() },
        }
    }
}

impl DeepView for Effect {
    type V = EffectView;

    open spec fn deep_view(&self) -> EffectView {
        self@
    }
}

impl EffectView {
    /// Whether the effect restricts a user: a ban, a mute or a custom restriction.
    pub open spec fn is_restriction(self) -> bool {
        self is Ban || self is Mute || self is Restrict
    }

    /// Whether the effect writes to the catalog or to the infraction ledger.
    pub open spec fn is_store_write(self) -> bool {
        self is InsertWarn || self is ArchiveWarns || self is InsertWarnType
    }
}

impl Effect {
    /// Whether the effect restricts a user.
    pub fn is_restriction(&self) -> (res: bool)
        ensures
            res == self@.is_restriction(),
    {
        match self {
            Effect::Ban { .. } => true,
            Effect::Mute { .. } => true,
            Effect::Restrict { .. } => true,
            _ => false,
        }
    }
}

/// One plain message to `chat_id`, as a list of effects.
pub open spec fn say(chat_id: i64, text: Seq<char>) -> Seq<EffectView> {
    seq![EffectView::SendMessage { chat_id, text }]
}

/// The list of effects that sends one plain message to `chat_id`.
pub fn reply(chat_id: i64, text: &str) -> (effects: Vec<Effect>)
    ensures
        effects.deep_view() == say(chat_id, text@),
{
    let mut effects: Vec<Effect> = Vec::new();
    effects.push(Effect::SendMessage { chat_id, text: String::from_str(text) });
    effects
}

/// The empty list of effects.
pub fn silence() -> (effects: Vec<Effect>)
    ensures
        effects.deep_view() == Seq::<EffectView>::empty(),
{
    let effects: Vec<Effect> = Vec::new();
    effects
}

} // verus!
