//! What can go wrong while a font is decoded.

use vstd::prelude::*;

verus! {

/// The part of the font that was being read when a failure was found.
#[derive(Clone, Copy, Debug, PartialEq, Eq, Structural)]
pub enum Table {
    /// The container header and its list of table records.
    Directory,
    Cmap,
    Glyf,
    Head,
    Hhea,
    Hmtx,
    Kern,
    Loca,
    Maxp,
}

/// The kinds of failure. Each of them ends the decoding step that met it.
#[derive(Clone, Copy, Debug, PartialEq, Eq, Structural)]
pub enum ErrorKind {
    /// A read would run past the end of the buffer.
    TruncatedInput,
    /// A seek aims past the end of the buffer.
    InvalidOffset,
    /// A glyph index has no entry in the index-to-location table.
    InvalidGlyphIndex,
    /// A table that the computation needs is absent, or a count that must
    /// not be zero is zero.
    InvalidFontTable,
    /// The capital height that the width is scaled by is zero.
    DivisionByZero,
}

/// A failure, with the table it was found in and a byte offset into the
/// buffer that locates it.
///
/// For a failed read the offset is where the read began; for a failed seek
/// to an absolute offset it is the target; for a failed relative seek it is
/// the position the seek started from. The decoders say in their contracts
/// which offset the failures of their own carry.
#[derive(Clone, Copy, Debug, PartialEq, Eq, Structural)]
pub struct FontError {
    pub kind: ErrorKind,
    pub table: Table,
    pub offset: u64,
}

/// Whether a computed list is the expected one, item by item, or the
/// expected failure.
pub open spec fn yields<T>(result: Result<Vec<T>, FontError>, expected: Result<Seq<T>, FontError>) -> bool {
    match expected {
        Ok(items) => result matches Ok(list) && list@ == items,
        Err(error) => result == Err::<Vec<T>, FontError>(error),
    }
}

/// Two results that meet one expectation are the same list or the same
/// failure. What a decoder is expected to give depends on the bytes and its
/// other arguments alone, so decoding the same bytes again gives what it
/// gave before.
pub proof fn lemma_yields_once<T>(
    first: Result<Vec<T>, FontError>,
    second: Result<Vec<T>, FontError>,
    expected: Result<Seq<T>, FontError>,
)
    requires
        yields(first, expected),
        yields(second, expected),
    ensures
        match first {
            Ok(list) => second matches Ok(again) && again@ == list@,
            Err(error) => second == Err::<Vec<T>, FontError>(error),
        },
{
}

} // verus!
