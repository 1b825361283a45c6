//! Verified core of a screen-capture engine.
//!
//! The engine turns a negotiated video stream of collaborator-owned buffers
//! into decoded pixel frames.  This crate holds the decision logic: format
//! negotiation and parsing, per-buffer extraction planning, frame dispatch,
//! and the capture lifecycle state machine.  The surrounding process (stream
//! connection, memory mapping, thread management) hands this crate plain
//! values and acts on the plans and transitions it returns.

pub mod buffer;
pub mod dispatch;
pub mod dma;
pub mod format;
pub mod lifecycle;
pub mod offer;
pub mod pipeline;
