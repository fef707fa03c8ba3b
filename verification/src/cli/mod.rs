pub mod args;
pub mod commands;
pub mod simple_args;

pub use args::CliArgs;
pub use commands::{handle_commands, InfoCommand};
