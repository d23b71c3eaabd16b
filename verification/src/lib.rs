//! Core of a presentation application's rendering backend: placement of
//! buffers and textures into shared GPU memory regions, the frame-pacing
//! state machine that hands the render loop a safe swap-chain index, and the
//! command-recording abstraction that keeps render passes well nested.
//!
//! Everything here works on plain values (sizes, alignments, indices,
//! abstract commands); the process-level plumbing around it (device and
//! window bootstrap, threads, blocking waits, the graphics API itself) lives
//! outside the library and consumes the plans and decisions computed here.

pub mod align;
pub mod block;
pub mod builtin;
pub mod control;
pub mod event;
pub mod placement;
pub mod recorder;
pub mod resources;
pub mod transfer;
