//! Error vocabulary for a dictionary-lookup library.
//!
//! The single public type, [`errors::DictError`], enumerates every failure a
//! dictionary-processing pipeline can surface: malformed characters and index
//! lines, unrecognised file formats, implausible buffer sizes, missing words,
//! and wrapped low-level I/O and text-decoding failures.  The type offers a
//! human-readable message, a short categorical description, and an optional
//! underlying cause, and converts implicitly from the two wrapped foreign
//! error types.

pub mod errors;
mod foreign;
pub mod text;
