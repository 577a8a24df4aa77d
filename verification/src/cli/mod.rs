pub mod commands;
pub mod commands_extended;
