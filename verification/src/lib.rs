//! Core logic of a small trip-itinerary service.
//!
//! The service either retrieves a previously stored itinerary by its short
//! tag, or accepts a structured generation request, builds a prompt for a
//! language-model inference service, and stores the resulting text under a
//! freshly generated tag.  Everything here is plain decision logic over
//! values; the HTTP transport, the key-value store and the inference service
//! are external collaborators driven by a thin host shim.

pub mod compose;
pub mod handler;
pub mod parse;
pub mod prompt;
pub mod request;
pub mod router;
pub mod store;
pub mod tag;
