//! Decision logic of a correctness-and-throughput exerciser for an HTTP
//! forward proxy.
//!
//! The exerciser fetches a fixed set of URLs directly to learn the expected
//! bodies, replays the same requests through the proxy under test, demands
//! byte-for-byte equality, and then measures the sustained request rate
//! until it is cancelled. Everything that decides or computes lives here and
//! is verified; sending requests, sleeping and waiting for the cancellation
//! signal is left to the program that drives this library.

pub mod args;
pub mod baseline;
pub mod correctness;
pub mod decimal;
pub mod fault;
pub mod invariants;
pub mod load;
pub mod proxy;
pub mod report;
pub mod run;
pub mod stage;
pub mod verdict;
