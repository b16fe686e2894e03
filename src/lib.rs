//! A typed, checked view of the output end ("sink") of a media filter graph.
//!
//! The engine reports a sink's properties as raw integers: a media type tag,
//! one format slot shared by video and audio, dimensions, rationals, a
//! channel mask, and status codes for each pull. This crate turns those
//! values into typed answers, reading the format slot only under the media
//! type it belongs to and mapping every failure status onto one error type.
use vstd::prelude::*;

pub mod channel_layout;
pub mod error;
pub mod format;
pub mod rational;
pub mod sink;

verus! {

} // verus!
