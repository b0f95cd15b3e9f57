//! Verified core of the RaTeX C interface: option decoding, request handling and
//! result bookkeeping for the C entry points, which live in a thin unverified shell.
//!
//! - [`options`]: the versioned option structs, read field by field within `struct_size`;
//! - [`color`]: color validation;
//! - [`float_bits`]: IEEE-754 values handled through their bit patterns;
//! - [`api`]: the requests behind each C entry point, from raw input to outcome;
//! - [`engine`]: the typesetting pipeline (parser, layout, exporters);
//! - [`export`]: buffers and result records handed to C;
//! - [`last_error`]: the per-thread last error message;
//! - [`errors`]: what can go wrong, and the message each failure is reported with;
//! - [`laws`]: properties that span several fields or calls;
//! - [`text`]: UTF-8 decoding of the C strings.
pub mod api;
pub mod color;
pub mod engine;
pub mod errors;
pub mod export;
pub mod float_bits;
pub mod last_error;
pub mod laws;
pub mod options;
pub mod text;
