//! A verified orchestration engine for a pipeline of code-generating agents.
//!
//! Every decision the pipeline makes is a pure step from state and event to
//! next state and action: the driver around the library performs each action
//! (a generation call, a build, an HTTP probe) and hands the outcome back as
//! the next event.
pub mod agent;
pub mod context;
pub mod protocol;
pub mod json;
pub mod analyst;
pub mod backend;
pub mod manager;
pub mod prompt;
pub mod laws;
pub mod console;
