//! Validated construction of Discord application-command options, and the
//! routing decisions of the bot that serves them.

pub mod name_pattern;
pub mod localization;
pub mod command_option;
pub mod dispatch;
