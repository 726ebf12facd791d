//! Decision core of an owner-gated chat bot: command grammar, the per-conversation
//! state machine, media extraction and the polling loop's bookkeeping.
//!
//! Everything here is pure computation over plain values. The program around it
//! performs the network calls and hands their results back in.

pub mod command;
pub mod config;
pub mod dispatch;
pub mod event;
pub mod handler;
pub mod media;
pub mod router;
pub mod scan;
pub mod state;
pub mod store;

pub use command::Command;
pub use config::{Config, ConfigError};
pub use dispatch::{Category, Completion, Directive, DispatchLoop, Pace, Step};
pub use event::{is_admitted, Event};
pub use handler::{handle, Handled};
pub use media::{extract, file_url, Content, MediaKind, MediaReference};
pub use router::{route, Effect, Outcome, Reply};
pub use state::State;
pub use store::{shard_of, StateStore};
