//! Generates the declarations through which Rust code calls the X11 display
//! library and its extensions.
//!
//! The crate decides what is generated and in which order; it neither reads
//! the disk nor parses a header. A `run::Run` says what is to be done next,
//! its caller does it and reports back. The engine that parses the headers
//! is configured here and run by the caller.
//!
//! - `layout`: where libraries, headers and generated files lie.
//! - `request`: the requests of a run, one per generated file.
//! - `search_path`: from the contents of the libraries root to the header
//!   search path.
//! - `engine`: what is taken on trust of the engine.
//! - `configure`: from a request to a configured engine.
//! - `run`: a run, step by step.
//! - `trace`: what holds of whole runs.

pub mod configure;
pub mod engine;
pub mod layout;
pub mod request;
pub mod run;
pub mod search_path;
pub mod trace;
