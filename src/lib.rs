//! A micro-benchmark harness for round trips between two processes, built
//! around a hand-rolled busy-wait handshake over a shared byte region.

pub mod payload;
pub mod error;
pub mod channel;
pub mod protocol;
pub mod shmem;
pub mod report;
pub mod handshake;
pub mod lifecycle;
