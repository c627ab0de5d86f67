//! Routes posts from Twitter and Web feeds to their outboxes.

pub mod app;
pub mod body;
pub mod bytes;
pub mod cli;
pub mod decimal;
pub mod encoding;
pub mod feed;
pub mod first;
pub mod manifest;
pub mod models;
pub mod paths;
pub mod pattern;
pub mod poll;
pub mod router;
pub mod rules;
pub mod sets;
pub mod socket;
pub mod strings;
pub mod time;
pub mod twitter;
pub mod uri;
pub mod value;
pub mod websub;
