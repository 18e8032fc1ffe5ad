//! The logic of a small HTTP client: how raw form input becomes a request,
//! what is put on the wire for it, how an exchange is reduced to an outcome,
//! and the state machine that a front end drives with its events.
//!
//! Nothing here performs I/O. A front end feeds events to [`model::Model`],
//! carries out the [`model::Action`] that comes back, and reports the result
//! as a further event.

pub mod text;
pub mod net;
pub mod misc;
pub mod model;
