//! Conversion between the replay formats of bot tools for a platformer game,
//! by way of a model that every format is read into.
//!
//! The crate knows a replay in two shapes. [`shared`] is the shape that the
//! packed-delta codec in [`formats::silicate`] fills: inputs on a running
//! frame counter, beside a bitfield of what the source format can express.
//! [`action`], [`replay`], [`version`] and [`meta`] are the shape that the
//! atom-based codec in [`formats::silicate3`] fills: actions timed by frame,
//! position or time, beside metadata that passes from format to format by
//! the names of its fields.
//!
//! Everything works on values in memory. Bytes come through a [`stream`]
//! over a buffer, floating-point numbers are kept as their bits in
//! [`float`], and whole numbers become text and text numbers in
//! [`decimal`]. Floating-point numbers become text by the caller's own
//! means, which [`float_text`] and [`single_text`] take in.

pub mod action;
pub mod decimal;
pub mod error;
pub mod float;
pub mod float_text;
pub mod format;
pub mod formats;
pub mod generate;
pub mod meta;
pub mod replay;
pub mod shared;
pub mod single_text;
pub mod stream;
pub mod version;
