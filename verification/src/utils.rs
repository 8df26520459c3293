//! Who may use the warning commands.

use vstd::prelude::*;

verus! {

/// What a user is in a chat.
#[derive(Debug, Clone, Copy, PartialEq, Eq, Structural)]
pub enum ChatMemberStatus {
    Owner,
    Administrator,
    Member,
    Restricted,
    Left,
    Banned,
}

/// Lets a message through if its author owns the chat. `member` is what the
/// chat platform says of the author; it is `None` where the message has no
/// author or the platform gave no answer.
pub fn filter_chat_owner(member: Option<ChatMemberStatus>) -> (res: bool)
    ensures
        res == (member == Some(ChatMemberStatus::Owner)),
{
    match member {
        Some(ChatMemberStatus::Owner) => true,
        _ => false,
    }
}

} // verus!
