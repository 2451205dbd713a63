//! The message-driven core of a chat automation agent that watches one
//! configured channel for pull-request links of a fixed repository, replaces
//! each with an enriched summary, and takes one administrative command to
//! designate the monitored channel, persisted across restarts.

pub mod config;
pub mod detect;
pub mod router;
pub mod text;
