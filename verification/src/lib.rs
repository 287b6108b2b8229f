//! Marshalling between a CommonMark parser's borrowed event stream and an
//! owned, fixed-width representation that can cross a component boundary.
//!
//! The parser itself is `pulldown_cmark`. This crate copies its events,
//! tags, option flags and byte ranges into owned values, and states, for
//! every conversion, that nothing of the meaning is lost.
//!
//! - [`facade`] holds the operations offered across the boundary.
//! - [`event`], [`tag`] and [`scalar`] convert the parser's enumerations.
//! - [`options`] converts the feature flags, [`range`] the byte ranges.
//! - [`native`] declares what is used of the parser library and states
//!   what is taken on trust about it.
pub mod error;
pub mod event;
pub mod facade;
pub mod native;
pub mod options;
pub mod range;
pub mod scalar;
pub mod tag;
