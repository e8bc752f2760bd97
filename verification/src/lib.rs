//! Service shell around a GKR proving system.
//!
//! The proving system itself is not part of this crate. What is: finding
//! the field a circuit file was compiled for, choosing the pipeline for that
//! field, reading the command line, writing and reading the proof artifact,
//! framing verify requests, and wording the replies of the service.

pub mod address;
pub mod buffer;
pub mod codec;
pub mod command;
pub mod dispatch;
pub mod field;
pub mod framing;
pub mod service;
