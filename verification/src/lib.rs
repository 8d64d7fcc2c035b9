//! A streaming line-by-line transcoder: each input line holds one JSON record
//! describing an assistant's activity (text output, tool invocations, final
//! results), and each recognized record is rendered as a compact,
//! human-readable summary.
//!
//! The pipeline is pure and stateless: `decode` turns one line into a typed
//! [`message::StreamMessage`], `format_message` renders it, and
//! [`format::process_line`] composes the two. Reading and writing lines is
//! left to the caller.

pub mod format;
pub mod json;
pub mod laws;
pub mod message;
pub mod text;
