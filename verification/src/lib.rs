//! The decision core of a desktop shell's native backend.
//!
//! The centre of the crate is the directory watcher: a small state machine
//! that turns what a watch worker observes (installation outcomes, polled
//! filesystem events, timeouts) into the next thing the worker has to do,
//! and that translates every filesystem event into exactly one change
//! notification. Around it sit the decisions of the sibling commands
//! (which program an application name launches, what a probe's outcome
//! means), all of them functions from plain values to plain values.
//!
//! Nothing in here touches the operating system. A host runs the loops,
//! performs the commands this crate hands out and reports back what happened.

pub mod event;
pub mod notification;
pub mod watcher;
pub mod delivery;
pub mod text;
pub mod commands;
