//! A relay that forwards live audio to a streaming speech-recognition service
//! and hands the service's transcript events back to a local consumer.
//!
//! This crate holds the relay's decisions: the audio wire format, the session
//! registry that says whether a session is open, the connection request, and
//! the filtering of inbound transcript frames. The I/O itself is performed by
//! the hosting application.
use vstd::prelude::*;

pub mod codec;
pub mod error;
pub mod session;
pub mod connect;
pub mod inbound;
