//! Inspection of the header of a Game Boy cartridge image.
//!
//! A [`CartridgeReader`] holds the first bank of an image. It describes the header found
//! there line by line: the boot logo, the title, the hardware that the cartridge asks for
//! and carries, its market and publisher, and its checksums.

pub mod header;
pub mod labels;
pub mod logo;
pub mod reader;
pub mod text;

pub use header::HeaderError;
pub use reader::{CartridgeReader, ReportError};
