//! A soundboard: short audio clips are uploaded into a catalog and played
//! into a voice session or sent as audio messages.
//!
//! The library decides; it performs no input or output. The upload pipeline
//! and the playback dispatcher are state machines: each takes what the
//! outside world reports and answers with the request to carry out next.

pub mod blob;
pub mod catalog;
pub mod filename;
pub mod ident;
pub mod listing;
pub mod play_laws;
pub mod play_model;
pub mod play_types;
pub mod playback;
pub mod text;
pub mod upload;
pub mod upload_laws;
pub mod upload_model;
pub mod upload_types;
