//! Verified core of a file-change watch stream over the macOS FSEvents
//! facility: the classification of native event flags into logical change
//! kinds, the decoding of native event batches, the stream lifecycle, the
//! callback-context registry and the marshalling of handler calls.
//!
//! Everything here works on plain values. The native subscription calls, the
//! existence probe on disk and the call into the handler's runtime are made by
//! the embedding code, which this crate tells what to do and in which order.

pub mod bridge;
pub mod callback;
pub mod classifier;
pub mod event;
pub mod flags;
pub mod kind;
pub mod queue;
pub mod registry;
pub mod stream;
