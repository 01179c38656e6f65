//! Runs a command whenever a relevant change shows up under a watched tree.
//!
//! The library holds the decisions: which changed paths are relevant
//! (`filter`), how a burst of change notifications collapses into a single
//! trigger (`debounce`), and how the spawned command's lifetime is managed
//! across triggers (`runner`). Watching the file system, sleeping, clearing
//! the terminal and spawning processes are left to the caller, which feeds
//! what happened back into these state machines.

pub mod event;
pub mod filter;
pub mod debounce;
pub mod runner;

pub use event::{ChangeEvent, EventPath};
pub use filter::{
    default_ignore_rules, with_default_ignores, FilterError, GlobsetFilterer, Rejection, Rule,
};
pub use debounce::{DebounceAction, DebounceInput, DebounceState, Debouncer, QUIESCENCE_MILLIS};
pub use runner::{CommandRunner, RunnerAction, RunnerInput};
