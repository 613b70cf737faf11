//! Verified core of a Discord moderation bot: the decisions it takes on
//! gateway events, the text it sends, and the rows it stores.

pub mod commands;
pub mod config;
pub mod graphql;
pub mod handler;
pub mod mention;
pub mod postgres;
pub mod shard;
pub mod text;
pub mod twitch;
