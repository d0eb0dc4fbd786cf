//! Decision logic of a privileged command-orchestration engine.
//!
//! The library chooses a package manager, renders the command to run,
//! drives the authentication of an elevated shell, and follows a child
//! process while reporting bounded progress. Every blocking operation is
//! left to the caller: the library says what to do next and what an
//! observation means.

pub mod auth;
pub mod catalog;
pub mod command;
pub mod download;
pub mod error;
pub mod help;
pub mod orchestrator;
pub mod pkgmanager;
pub mod progress;
pub mod session;
pub mod setup;
pub mod text;
pub mod toolchain;
pub mod tracer;
pub mod ui;
