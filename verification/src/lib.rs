//! The rules of a profile launcher.
//!
//! A profile is a named, ordered list of steps: applications, terminal
//! commands, folders and URLs. The heart of the library is the sequencing
//! of a launch:
//!
//! - `orchestrator` runs an interactive activation step by step, with a
//!   ceiling on each step, a delay after it, and a cancel signal that is
//!   looked at before every step and every slice of a delay; `run_trace`
//!   states what holds of every run, `shared_slot` what holds when several
//!   activations share the run slot, and `run_state` holds the run slot and
//!   the cancel signal.
//! - `scheduler` fires scheduled profiles, each at most once per minute;
//!   `wakeups` states what holds over any series of wake-ups.
//!
//! Around it stand the rules of what a launch is (`launcher`, `spawn`,
//! `expansion`), of what the machine has installed (`discovery`, `steam`,
//! `epic`, `desktop_entry`, `installed`, `scanners`, `catalogue_order`), of what is
//! running (`process`), of kill-and-wipe (`kill_wipe`, `wipe`) and of the
//! desktop shell (`shell`).
//!
//! The library never sleeps, starts a process or publishes an event. It
//! decides, from plain values to plain values, and says in each contract
//! what it decides.

pub mod text;
pub mod config;
pub mod run_state;
pub mod orchestrator;
pub mod run_trace;
pub mod shared_slot;
pub mod scheduler;
pub mod wakeups;
pub mod launcher;
pub mod spawn;
pub mod expansion;
pub mod process;
pub mod discovery;
pub mod catalogue_order;
pub mod steam;
pub mod epic;
pub mod desktop_entry;
pub mod installed;
pub mod scanners;
pub mod kill_wipe;
pub mod wipe;
pub mod shell;
