//! Verified core of a single-slot container job runner.
//!
//! The library holds the decision logic of the runner and of its
//! in-container agent: the job lifecycle state machine, the console
//! streamer's framing rules, the control-socket protocol with its wire
//! codec, the container spawn argument assembly, and the storage
//! provisioning plans.  Everything that touches the outside world
//! (processes, sockets, files, timers) lives in the surrounding
//! application, which drives these functions and hands their results
//! back as plain values.

pub mod codec;
pub mod config;
pub mod control;
pub mod ids;
pub mod messages;
pub mod nspawn;
pub mod puppet;
pub mod streamer;
pub mod supervisor;
pub mod zfs;
