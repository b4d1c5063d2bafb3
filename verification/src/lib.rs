//! Measuring a line of text against a TrueType font.
//!
//! The crate decodes just enough of an sfnt container to turn a string into
//! glyph indices, to find the outline bounds of a glyph, to add up horizontal
//! advances and to add up kerning adjustments. Every decoder is a function of
//! the font's bytes: what it returns is defined over `Seq<u8>`, and the code
//! is proved to return just that.

pub mod cmap;
pub mod cmap_format;
pub mod cursor;
pub mod directory;
pub mod endian;
pub mod error;
pub mod glyf;
pub mod head;
pub mod hmtx;
pub mod kern;
pub mod measure;
pub mod text;
