//! Moderation engine for group chats.
//!
//! Warnings carry points; points accumulate per user inside a warning group,
//! and reaching the group's threshold turns the next warning into a
//! punishment. New warning types are defined through a guided conversation.
//!
//! The engine never talks to the chat platform or to a database itself. Its
//! functions take what was read (the session, the catalog's answers, the
//! user's points) and return the ordered list of [`effect::Effect`]s that the
//! caller has to carry out.

pub mod commands;
pub mod dto;
pub mod effect;
pub mod handlers;
pub mod laws;
pub mod punish;
pub mod repository;
pub mod setup_warns;
pub mod simple_commands;
pub mod text;
pub mod utils;
pub mod warn;
