//! Verified core of the `forge` server-initialisation tool: input validation,
//! command planning, text rendering and the parsing of system command output.
//! The executable in `app/` performs the I/O and hands plain values here.

pub mod text;
pub mod pattern;
pub mod error;
pub mod system;
pub mod user;
pub mod nginx;
pub mod template;
pub mod commands;
