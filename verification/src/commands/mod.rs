//! The subcommands of the tool.

pub mod init;
