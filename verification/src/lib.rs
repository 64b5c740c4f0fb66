//! The argument number of a TPM2 format-one response code.
//!
//! A format-one response code names the argument that made a command fail:
//! one of its parameters, sessions or handles, by number. That information
//! travels in a single byte whose bit 0 and bit 5 select how the rest is read.
//! This crate holds the byte's layout, the conversions between the byte and
//! [`ArgumentNumber`], and the text shown for each kind of argument.
//!
//! - [`codec`]: the type, the layout, and the two conversions.
//! - [`laws`]: what holds of the conversions for every input.
//! - [`render`]: the text for an argument number.
//! - [`bits`]: bits and bit ranges of a byte, read and written through the
//!   `bitfield` crate.

pub mod bits;
pub mod codec;
pub mod laws;
pub mod render;

pub use codec::ArgumentNumber;
