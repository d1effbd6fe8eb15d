//! Tiered audio-variant selection for a track download service.
//!
//! The library holds the decisions of the service: which encoded variant each
//! quality tier claims, where each claimed variant is stored, how a track
//! reference is read from a link, and how one request moves from resolution to
//! a final outcome. Network and disk work stay with the caller.

pub mod format;
pub mod orchestrate;
pub mod resolve;
pub mod select;
pub mod store;
