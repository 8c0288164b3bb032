//! Command encoding for ESC/POS-style thermal point-of-sale printers.
//!
//! The crate turns structured print instructions (text-attribute toggles,
//! alignment, feed and cut, barcodes, monochrome raster images) into the
//! exact byte sequences the printer understands, gates them against a
//! per-model capability table, and sequences them over a caller-supplied
//! byte transport.

use vstd::prelude::*;

pub mod barcode;
pub mod commands;
pub mod epson_image;
pub mod models;
pub mod write;

pub use barcode::Barcode;
pub use commands::{Alignment, CharacterSet, Command, HriPosition};
pub use epson_image::{ImageBuffer, Raster};
pub use models::Model;
pub use write::Writer;

verus! {

/// Protocol-level error conditions.
#[derive(Copy, Clone, Debug, PartialEq, Eq, Structural)]
pub enum Error {
    /// An image's row of pixels could not be packed into whole bytes.
    ImageNot8BitAligned,
    /// An image is larger than the encoding scheme supports (dimensions
    /// beyond a `u16`), or wider than the selected model allows.
    ImageTooLarge,
    /// The requested feature is not supported by the configured model.
    Unsupported,
    /// A barcode was given an invalid number of digits.
    InvalidBarcodeLength,
    /// A barcode was given non-digit characters.
    InvalidBarcodeCharacters,
}

} // verus!
