//! The decision logic of the Mel Discord bot: how a command prefix is chosen,
//! what the help command answers, how database outcomes are judged, how
//! configuration text is read and how command reports are worded.
//! Network, database and Discord I/O live in the application around it.

pub mod text;
pub mod guild;
pub mod embed;
pub mod help;
pub mod commands;
pub mod clock;
pub mod report;
pub mod reaction;
pub mod config;
pub mod apis;
