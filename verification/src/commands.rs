//! The commands that reach the engine, already decoded.

use vstd::prelude::*;

verus! {

/// Commands of the warning engine.
#[derive(Debug, PartialEq)]
pub enum WarnsCommand {
    /// Warn the author of the message that the command replies to.
    Warn { trigger: String },
}

/// The mathematical value of a [`WarnsCommand`].
pub enum WarnsCommandView {
    Warn { trigger: Seq<char> },
}

impl View for WarnsCommand {
    type V = WarnsCommandView;

    open spec fn view(&self) -> WarnsCommandView {
        match *self {
            WarnsCommand::Warn { trigger } => WarnsCommandView::Warn { trigger: trigger@ },
        }
    }
}

impl Clone for WarnsCommand {
    fn clone(&self) -> (res: Self)
        ensures
            res == *self,
    {
        match self {
            WarnsCommand::Warn { trigger } => WarnsCommand::Warn { trigger: trigger.clone() },
        }
    }
}

/// Commands of the conversation that defines a new warning type.
#[derive(Debug, Clone, Copy, PartialEq, Eq, Structural)]
pub enum SetupWarnsCommands {
    /// Begin defining a warning type for the chat with the given id.
    NewWarn { chat_id: i64 },
    /// Give the definition up.
    Cancel,
}

} // verus!
