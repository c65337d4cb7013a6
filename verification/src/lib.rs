//! The execution engine of a tool-using coding agent, with its
//! contracts: the step state machine, the conversation history and its
//! repair and trim, the token-budget rule, the trajectory journal, the
//! context snapshot and the stop signal.

pub mod anthropic;
pub mod cancel;
pub mod compression;
pub mod config;
pub mod context;
pub mod effects;
pub mod engine;
pub mod events;
pub mod history;
pub mod json;
pub mod laws;
pub mod machine;
pub mod message;
pub mod output;
pub mod snapshot;
pub mod text;
pub mod tools;
pub mod trajectory;
