//! Verified core of a concurrent website status checker.
//!
//! The library holds the checker's logic: classifying probe outcomes, the
//! bounded retry policy with its fixed inter-attempt delay, the shared
//! work backlog that hands each URL to exactly one worker, the result
//! collector that owes one record per URL, the command-line and URL-file
//! handling, and the console and JSON report rendering. The surrounding
//! process — HTTP requests, threads, the clock, files — lives outside the
//! library and exchanges plain values with it.

pub mod args;
pub mod backlog;
pub mod collector;
pub mod lines;
pub mod numbers;
pub mod outcome;
pub mod record;
pub mod render;
pub mod retry;
