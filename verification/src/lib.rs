//! Line numbering for text documents.
//!
//! The library turns a sequence of raw text lines into a numbered
//! rendering, in the manner of the classic `nl` utility: a policy decides
//! which lines receive an ordinal and which advance the counter, and a
//! formatter aligns the ordinals in a column sized by the widest line of
//! the document.  Every function is specified and verified; reading files
//! and parsing command-line flags are left to the surrounding application.

pub mod classify;
pub mod pipeline;
pub mod policy;
pub mod render;
