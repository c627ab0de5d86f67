//! The commands.

pub mod common;
pub mod ipc;
pub mod run;
pub mod twitter_list_sync;
pub mod twitter_login;
pub mod websub;
