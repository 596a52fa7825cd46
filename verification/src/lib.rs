//! Scheduling core of a mail-event dispatch daemon: for each configured
//! handler, decide when its command is to be spawned, given a stream of
//! latest-value events, a delay, a rate limit and a periodic interval.
pub mod limiter;
pub mod text;
pub mod message;
pub mod span;
pub mod config;
pub mod handler;
pub mod laws;
pub mod execute;
pub mod access;
pub mod frontend;
