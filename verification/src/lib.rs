//! The core of a notification relay.
//!
//! The relay watches a social stream and a market price feed, and posts what
//! it finds to a chat channel. Three managers do the outside work, one for
//! each service; they know nothing of each other and talk through a bus of
//! typed commands. This crate holds what the managers decide, with the
//! outside work left to the caller:
//!
//! - `gecko`: the rule engine that compares two snapshots of the markets,
//!   and the poller that feeds it and announces the first snapshot;
//! - `twitter`: the subscription list of the stream watcher and the filter
//!   on its stream;
//! - `discord`: the message that the notification sink posts for a command,
//!   and what its chat commands ask for;
//! - `listing`, `text`: the market listing and the numbers in it;
//! - `bus`, `command`: the commands and their routing;
//! - `config`: the configuration that all managers read.
//!
//! Contracts speak of values through their views: the view of a text is its
//! sequence of characters, the view of a record holds the views of its
//! fields, and `model::views` gives the views of the items of a list.

pub mod bus;
pub mod command;
pub mod config;
pub mod discord;
pub mod gecko;
pub mod listing;
pub mod model;
pub mod text;
pub mod twitter;

pub use config::Config;
