//! Verified core of the Michi micro server: the decisions, parsers and state
//! machines behind its HTTP API, with the I/O left to the caller.
use vstd::prelude::*;

pub mod deps;
pub mod text;
pub mod playback;
pub mod projection;
pub mod modules;
pub mod queue;
pub mod client_ip;
pub mod auth;
pub mod paths;
pub mod import;
pub mod assets;
pub mod diagnostics;
pub mod settings;
pub mod backup;
pub mod pairing;
pub mod library;
pub mod players;
pub mod watchdog;
pub mod rooms;
pub mod chains;
pub mod output;
pub mod listing;
pub mod catalog;
pub mod sources;
pub mod streaming;
pub mod setup;
pub mod insights;
pub mod shares;
pub mod events;
