//! Decision logic of a hotplug helper: the program that the device subsystem
//! starts when hardware is attached or removed, or when the machine wakes up,
//! and that brings the Eruption daemon back into a ready state.
//!
//! The library performs no I/O. It tells its caller which step to take next
//! (take the lock, run a command, sleep, release the lock) and takes the
//! result of that step back as an event. Everything stated about the helper's
//! behaviour is stated, and proved, over that exchange.
//!
//! - `coordinator` is the invocation itself: its states, steps and events.
//! - `lock`, `probe`, `settle` and `service` hold the rules of its parts.
//! - `command` names the external commands.
//! - `replay` plays whole invocations through.
//! - `laws` and `contention` state what holds of every invocation, alone
//!   and among others.
//! - `cli` and `logging` hold the command line and the choice of the log.

pub mod cli;
pub mod command;
pub mod contention;
pub mod coordinator;
pub mod laws;
pub mod lock;
pub mod logging;
pub mod probe;
pub mod replay;
pub mod service;
pub mod settle;
