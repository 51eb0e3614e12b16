//! Routing core of a multi-network chat relay bot, with the decision logic of
//! its message handler and of a few command parsers.

pub mod action;
pub mod router;
pub mod config;
pub mod text;
pub mod command;
pub mod number;
pub mod roll;
pub mod rss;
pub mod wolfram;
pub mod timer;
pub mod laugh;
pub mod weather;
pub mod listings;
pub mod episode;
pub mod urltitle;
pub mod grid;
pub mod wikipedia;
mod chance;

pub use action::{ActionType, BotAction, IrcChannel};
