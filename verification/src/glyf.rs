//! Glyph outlines: where the outline of a glyph lies, the box that bounds
//! it, and the height of the capital letter H.

use crate::cmap::{cmap_glyphs, parse_cmap};
use crate::cursor::{failure, ByteCursor, CursorState};
use crate::endian::{i16_at, u16_at, u32_at};
use crate::error::{ErrorKind, FontError, Table};
use vstd::prelude::*;

verus! {

/// The box that bounds a glyph's outline, in font units.
#[derive(Clone, Copy, Debug, PartialEq, Eq, Structural)]
pub struct GlyphBoundingBox {
    pub x_min: i16,
    pub y_min: i16,
    pub x_max: i16,
    pub y_max: i16,
}

/// Whether the index-to-location table holds 32-bit offsets, which the
/// 16-bit flag at byte 50 of the `head` table says with the value 1.
///
/// An offset of zero stands for a font without the table, which is an
/// `InvalidFontTable`.
pub open spec fn loca_is_long(bytes: Seq<u8>, head_offset: u32) -> Result<bool, FontError> {
    let flag = CursorState { bytes, pos: head_offset + 50, table: Table::Head };
    if head_offset == 0 {
        Err(failure(ErrorKind::InvalidFontTable, Table::Head, 0))
    } else if flag.pos > bytes.len() {
        Err(flag.out_of_range(flag.pos))
    } else if !flag.fits(2) {
        Err(flag.truncated())
    } else {
        Ok(u16_at(bytes, flag.pos) == 1)
    }
}

/// The byte offset in the buffer at which the outline of `glyph` begins:
/// `glyf_offset` plus the glyph's entry in the index-to-location table, which
/// is a 32-bit offset in the long form and half of the offset, in 16 bits,
/// in the short form.
///
/// A font without one of the three tables is an `InvalidFontTable`. An entry
/// that does not lie in the buffer is an `InvalidGlyphIndex` at the place
/// where it would begin.
pub open spec fn outline_offset(
    bytes: Seq<u8>,
    loca_offset: u32,
    glyf_offset: u32,
    glyph: u32,
    head_offset: u32,
) -> Result<u64, FontError> {
    if loca_offset == 0 {
        Err(failure(ErrorKind::InvalidFontTable, Table::Loca, 0))
    } else if glyf_offset == 0 {
        Err(failure(ErrorKind::InvalidFontTable, Table::Glyf, 0))
    } else if loca_offset > bytes.len() {
        Err(failure(ErrorKind::InvalidOffset, Table::Loca, loca_offset as int))
    } else {
        match loca_is_long(bytes, head_offset) {
            Err(error) => Err(error),
            Ok(true) => {
                let entry = loca_offset + 4 * glyph;
                if entry + 4 > bytes.len() {
                    Err(failure(ErrorKind::InvalidGlyphIndex, Table::Loca, entry))
                } else {
                    Ok((glyf_offset + u32_at(bytes, entry)) as u64)
                }
            },
            Ok(false) => {
                let entry = loca_offset + 2 * glyph;
                if entry + 2 > bytes.len() {
                    Err(failure(ErrorKind::InvalidGlyphIndex, Table::Loca, entry))
                } else {
                    Ok((glyf_offset + 2 * u16_at(bytes, entry)) as u64)
                }
            },
        }
    }
}

/// `outline_offset` of the first of `glyphs`. Without a first glyph there is
/// nothing to look up, which is an `InvalidGlyphIndex` at the start of the
/// index-to-location table.
pub open spec fn first_outline_offset(
    bytes: Seq<u8>,
    loca_offset: u32,
    glyf_offset: u32,
    glyphs: Seq<u32>,
    head_offset: u32,
) -> Result<u64, FontError> {
    if glyphs.len() == 0 {
        Err(failure(ErrorKind::InvalidGlyphIndex, Table::Loca, loca_offset as int))
    } else {
        outline_offset(bytes, loca_offset, glyf_offset, glyphs[0], head_offset)
    }
}

/// The bounds that the outline at byte `at` records: four signed 16-bit
/// values behind the contour count, which is passed over. The ten bytes are
/// read as one.
pub open spec fn bounds_at(bytes: Seq<u8>, at: int) -> Result<GlyphBoundingBox, FontError> {
    let start = CursorState { bytes, pos: at, table: Table::Glyf };
    if at > bytes.len() {
        Err(start.out_of_range(at))
    } else if !start.fits(10) {
        Err(start.truncated())
    } else {
        Ok(
            GlyphBoundingBox {
                x_min: i16_at(bytes, at + 2),
                y_min: i16_at(bytes, at + 4),
                x_max: i16_at(bytes, at + 6),
                y_max: i16_at(bytes, at + 8),
            },
        )
    }
}

/// The bounds of the outline of `glyph`.
pub open spec fn glyph_bounds(
    bytes: Seq<u8>,
    glyph: u32,
    loca_offset: u32,
    glyf_offset: u32,
    head_offset: u32,
) -> Result<GlyphBoundingBox, FontError> {
    match outline_offset(bytes, loca_offset, glyf_offset, glyph, head_offset) {
        Err(error) => Err(error),
        Ok(at) => bounds_at(bytes, at as int),
    }
}

/// Where the outline of a glyph can be located, its bounds are the ones
/// recorded at `glyf_offset` plus the glyph's entry in the index-to-location
/// table: the entry doubled in the short form, the entry as it is in the
/// long form.
pub proof fn lemma_bounds_follow_loca(
    bytes: Seq<u8>,
    glyph: u32,
    loca_offset: u32,
    glyf_offset: u32,
    head_offset: u32,
)
    requires
        outline_offset(bytes, loca_offset, glyf_offset, glyph, head_offset) is Ok,
    ensures
        loca_is_long(bytes, head_offset) == Ok::<bool, FontError>(true) ==> glyph_bounds(
            bytes,
            glyph,
            loca_offset,
            glyf_offset,
            head_offset,
        ) == bounds_at(bytes, glyf_offset + u32_at(bytes, loca_offset + 4 * glyph)),
        loca_is_long(bytes, head_offset) == Ok::<bool, FontError>(false) ==> glyph_bounds(
            bytes,
            glyph,
            loca_offset,
            glyf_offset,
            head_offset,
        ) == bounds_at(bytes, glyf_offset + 2 * u16_at(bytes, loca_offset + 2 * glyph)),
        loca_is_long(bytes, head_offset) is Ok,
{
}

/// The height of the outline of the glyph that the character map gives to
/// the letter H: the greatest y of its bounds less the least.
pub open spec fn cap_height(
    bytes: Seq<u8>,
    cmap_offset: u32,
    glyf_offset: u32,
    loca_offset: u32,
    head_offset: u32,
) -> Result<i32, FontError> {
    match cmap_glyphs(bytes, cmap_offset, seq!['H']) {
        Err(error) => Err(error),
        Ok(glyphs) => match first_outline_offset(
            bytes,
            loca_offset,
            glyf_offset,
            glyphs,
            head_offset,
        ) {
            Err(error) => Err(error),
            Ok(at) => match bounds_at(bytes, at as int) {
                Err(error) => Err(error),
                Ok(bounds) => Ok((bounds.y_max - bounds.y_min) as i32),
            },
        },
    }
}

/// Reads from the `head` table whether the index-to-location table is in
/// the long form.
pub fn check_loca_format(data: &[u8], head_offset: u32) -> (result: Result<bool, FontError>)
    ensures
        result == loca_is_long(data@, head_offset),
{
    if head_offset == 0 {
        return Err(FontError { kind: ErrorKind::InvalidFontTable, table: Table::Head, offset: 0 });
    }
    let mut cursor = ByteCursor::open(data, Table::Head);
    cursor.seek_absolute(head_offset as u64 + 50)?;
    let index_to_loc_format = cursor.read_u16()?;
    Ok(index_to_loc_format == 1)
}

/// Finds the byte offset in `data` at which the outline of `glyph_index`
/// begins.
pub fn locate_glyph(
    data: &[u8],
    loca_offset: u32,
    glyf_offset: u32,
    glyph_index: u32,
    head_offset: u32,
) -> (result: Result<u64, FontError>)
    ensures
        result == outline_offset(data@, loca_offset, glyf_offset, glyph_index, head_offset),
{
    if loca_offset == 0 {
        return Err(FontError { kind: ErrorKind::InvalidFontTable, table: Table::Loca, offset: 0 });
    }
    if glyf_offset == 0 {
        return Err(FontError { kind: ErrorKind::InvalidFontTable, table: Table::Glyf, offset: 0 });
    }
    let mut cursor = ByteCursor::open(data, Table::Loca);
    cursor.seek_absolute(loca_offset as u64)?;
    let is_loca_32bit = check_loca_format(data, head_offset)?;

    let width: u64 = if is_loca_32bit {
        4
    } else {
        2
    };
    let entry: u64 = loca_offset as u64 + glyph_index as u64 * width;
    if entry + width > cursor.len() as u64 {
        return Err(
            FontError { kind: ErrorKind::InvalidGlyphIndex, table: Table::Loca, offset: entry },
        );
    }
    cursor.seek_absolute(entry)?;
    let glyph_offset: u64 = if is_loca_32bit {
        cursor.read_u32()? as u64
    } else {
        cursor.read_u16()? as u64 * 2
    };
    Ok(glyf_offset as u64 + glyph_offset)
}

/// Finds the byte offset in `data` at which the outline of the first glyph
/// of `glyph_index` begins.
pub fn get_glyph_offset(
    data: &[u8],
    loca_offset: u32,
    glyf_offset: u32,
    glyph_index: Vec<u32>,
    head_offset: u32,
) -> (result: Result<u64, FontError>)
    ensures
        result == first_outline_offset(data@, loca_offset, glyf_offset, glyph_index@, head_offset),
{
    if glyph_index.len() == 0 {
        return Err(
            FontError {
                kind: ErrorKind::InvalidGlyphIndex,
                table: Table::Loca,
                offset: loca_offset as u64,
            },
        );
    }
    locate_glyph(data, loca_offset, glyf_offset, glyph_index[0], head_offset)
}

/// Reads the bounds that the outline at byte `outline_offset` of `data`
/// records.
pub fn read_bounds(data: &[u8], outline_offset: u64) -> (result: Result<GlyphBoundingBox, FontError>)
    ensures
        result == bounds_at(data@, outline_offset as int),
{
    let mut cursor = ByteCursor::open(data, Table::Glyf);
    cursor.seek_absolute(outline_offset)?;
    cursor.require(10)?;
    let _number_of_contours = cursor.read_i16()?;
    let x_min = cursor.read_i16()?;
    let y_min = cursor.read_i16()?;
    let x_max = cursor.read_i16()?;
    let y_max = cursor.read_i16()?;
    Ok(GlyphBoundingBox { x_min, y_min, x_max, y_max })
}

/// Reads the bounds of the outline of `glyph_index`: the values that stand
/// at `glyf_offset` plus the glyph's entry in the index-to-location table.
pub fn bounding_box(
    data: &[u8],
    glyph_index: u32,
    loca_offset: u32,
    glyf_offset: u32,
    head_offset: u32,
) -> (result: Result<GlyphBoundingBox, FontError>)
    ensures
        result == glyph_bounds(data@, glyph_index, loca_offset, glyf_offset, head_offset),
{
    let outline_offset = locate_glyph(data, loca_offset, glyf_offset, glyph_index, head_offset)?;
    read_bounds(data, outline_offset)
}

/// Measures the height of the capital letter H in font units.
pub fn get_cap_height(
    data: &[u8],
    cmap_offset: u32,
    glyf_offset: u32,
    loca_offset: u32,
    head_offset: u32,
) -> (result: Result<i32, FontError>)
    ensures
        result == cap_height(data@, cmap_offset, glyf_offset, loca_offset, head_offset),
{
    proof {
        reveal_strlit("H");
        assert("H"@ =~= seq!['H']);
    }
    let glyph_index = parse_cmap(data, cmap_offset, "H")?;
    let glyph_offset = get_glyph_offset(data, loca_offset, glyf_offset, glyph_index, head_offset)?;
    let bounds = read_bounds(data, glyph_offset)?;
    Ok(bounds.y_max as i32 - bounds.y_min as i32)
}

} // verus!
