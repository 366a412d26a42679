//! Host-side bridge for running script snippets in an embedded engine.
//!
//! The library decides everything that does not need the engine itself:
//! which binding keys are safe to splice into script source, the exact
//! declaration statement built for each binding, the order in which the
//! bindings and the user code are handed to the engine, and how a failure
//! at each stage is classified.
pub mod binding;
pub mod builder;
pub mod error;
pub mod identifier;
pub mod session;

pub use binding::declaration_statement;
pub use builder::Builder;
pub use error::RunnerError;
pub use identifier::is_valid_variable_name;
pub use session::{Action, Event, Phase, Session};
