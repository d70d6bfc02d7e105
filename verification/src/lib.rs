//! Verified core of a memory-watching auto splitter.
//!
//! The library holds the logic that turns polled raw memory observations from
//! a running game into timer decisions: a multi-hop pointer-path reader, the
//! anchor-discovery scan, change-tracked watchers, the per-tick update rules
//! (including the monotonic correction of a regressing in-game clock), and the
//! decision engine that chooses which timer commands to issue each tick.
//!
//! Everything external — attaching to the process, the raw byte reads, the
//! timer itself, settings storage and tick scheduling — is a collaborator that
//! a thin driver supplies; the library works on plain values alone.

pub mod engine;
pub mod layout;
pub mod path;
pub mod probe;
pub mod watcher;
