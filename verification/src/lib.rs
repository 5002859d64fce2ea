//! Verified core of a screen-capture source.
//!
//! The compositor produces frames at its own pace and the host renders at
//! another. Everything that decides what happens next lives here as plain
//! state machines with contracts: the negotiation and reuse of the shared
//! pixel buffer, the single-slot hand-off of finished frames, the table of
//! outputs, and the life cycle of the capture thread. The threads, sockets
//! and system calls that carry out those decisions live outside this crate.

pub mod capture;
pub mod channel;
pub mod frame;
pub mod gs;
pub mod keyed;
pub mod metadata;
pub mod mmap;
pub mod order;
pub mod output;
pub mod properties;
pub mod shm;
pub mod source;
pub mod update;
pub mod version;
pub mod video;
