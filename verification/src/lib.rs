//! Decision logic for recording a shareable terminal session.
//!
//! A recording drives three programs: a web terminal server, a terminal
//! multiplexer and a terminal recorder. This crate decides what is done
//! with them and in what order, and does none of it itself. Every step
//! that touches the operating system is described as an action for the
//! caller to perform; what the caller observed comes back as an event, and
//! the next action follows from it.
//!
//! - `action`: the actions and events, and how the child of an action is
//!   run.
//! - `net`: free-port discovery and readiness polling.
//! - `proc`: the run of the server, and the recording flow inside the
//!   multiplexer session.
//! - `record`: the two orchestrations, from their first check to the exit.
//! - `command`, `session`, `text`: the session descriptor and the command
//!   lines built from it.
//! - `deps`, `fsx`, `logging`, `cli`, `exit`: required programs, judgements
//!   on the file system, the log level, command-line defaults, exit codes.
//! - `mux`, `world`: what the decisions add up to on a machine whose
//!   answers are known.
//!
//! The command lines, the exit codes and the order of the steps are proved
//! against their specifications.

pub mod action;
pub mod cli;
pub mod command;
pub mod deps;
pub mod exit;
pub mod fsx;
pub mod logging;
pub mod mux;
pub mod net;
pub mod proc;
pub mod record;
pub mod session;
pub mod text;
pub mod world;
