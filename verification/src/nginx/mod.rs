//! nginx: validation and rendering of the site configuration, and the
//! commands that install and run the server.

pub mod config;
pub mod install;
