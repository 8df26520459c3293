//! The two commands that only tell an id.

use crate::effect::{Effect, EffectView};
use crate::text::{i64_to_string, signed_decimal};
use vstd::prelude::*;
use vstd::string::*;

verus! {

/// Commands that anyone may use.
#[derive(Debug, Clone, Copy, PartialEq, Eq, Structural)]
pub enum SimpleCommands {
    /// Shows the id of the chat.
    ChatId,
    /// Shows the id of the sender.
    MyId,
}

/// The answer to a simple command, in Markdown: the id between backticks.
pub open spec fn simple_command_text(cmd: SimpleCommands, sender: i64, chat_id: i64) -> Seq<char> {
    match cmd {
        SimpleCommands::MyId => "Your ID: `"@ + signed_decimal(sender as int) + "`"@,
        SimpleCommands::ChatId => "Chat ID: `"@ + signed_decimal(chat_id as int) + "`"@,
    }
}

/// Answers a simple command that came as message `message_id` of `chat_id`.
/// `sender` is the id of its author, which `MyId` cannot do without.
pub fn setup_simple_commands(
    cmd: SimpleCommands,
    sender: Option<i64>,
    chat_id: i64,
    message_id: i32,
) -> (effect: Effect)
    requires
        cmd == SimpleCommands::MyId ==> sender is Some,
    ensures
        effect@ == (EffectView::ReplyMarkdown {
            chat_id,
            message_id,
            text: simple_command_text(
                cmd,
                match sender {
                    Some(id) => id,
                    None => 0,
                },
                chat_id,
            ),
        }),
{
    let mut text;
    match cmd {
        SimpleCommands::MyId => {
            text = String::from_str("Your ID: `");
            text.append(i64_to_string(sender.unwrap()).as_str());
        },
        SimpleCommands::ChatId => {
            text = String::from_str("Chat ID: `");
            text.append(i64_to_string(chat_id).as_str());
        },
    }
    text.append("`");
    Effect::ReplyMarkdown { chat_id, message_id, text }
}

} // verus!
