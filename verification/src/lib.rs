//! Managed child processes for a desktop client: one-shot invocations of a
//! command-line tool that return structured output, and long-lived
//! interactive sessions that stream data until they are closed or their
//! process ends.
//!
//! The library holds the bookkeeping and every decision: the table of
//! sessions, the steps of starting a session and of a cancellable login, the
//! pumps and the reaper, and what the outcome of an invocation amounts to.
//! Spawning, waiting, reading and writing are left to the caller, who reports
//! what happened and is told what to do next.

pub mod ecs;
pub mod error;
pub mod invoke;
pub mod json;
pub mod login;
pub mod profiles;
pub mod pump;
pub mod registry;
pub mod search_path;
pub mod session;
pub mod start;
pub mod text;
pub mod tools;
