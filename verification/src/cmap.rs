//! The character map: from the characters of a string to glyph indices.
//!
//! Of the subtables that the table lists, the one for the Windows platform
//! with the Unicode BMP encoding is used. A font without it, or with one in
//! a format other than 0, 4 or 6, maps no character at all.

use crate::cmap_format::{
    format0_glyphs, format4_glyphs, format6_glyphs, lemma_trimmed_glyphs, parse_format0,
    parse_format4, parse_format6, segments_at,
};
use crate::cursor::{failure, u16s_at, ByteCursor, CursorState};
use crate::endian::{u16_at, u32_at};
use crate::error::{yields, ErrorKind, FontError, Table};
use crate::text::code_points;
use vstd::prelude::*;

verus! {

/// The subtable offset of the first of the `count` encoding records from
/// `at` that has platform 3 and encoding 1. A record is eight bytes: the
/// platform, the encoding, and the offset of the subtable from the start of
/// the table.
pub open spec fn unicode_subtable(bytes: Seq<u8>, at: int, count: nat) -> Option<u32>
    decreases count,
{
    if count == 0 {
        None
    } else if u16_at(bytes, at) == 3 && u16_at(bytes, at + 2) == 1 {
        Some(u32_at(bytes, at + 4))
    } else {
        unicode_subtable(bytes, at + 8, (count - 1) as nat)
    }
}

/// What the subtable at byte `at` makes of `text`: after the 16-bit format
/// selector the decoder of format 0, 4 or 6 takes over, and any other
/// format maps nothing.
pub open spec fn subtable_glyphs(bytes: Seq<u8>, at: int, text: Seq<char>) -> Result<
    Seq<u32>,
    FontError,
> {
    let start = CursorState { bytes, pos: at, table: Table::Cmap };
    let format = u16_at(bytes, at);
    if at > bytes.len() {
        Err(start.out_of_range(at))
    } else if !start.fits(2) {
        Err(start.truncated())
    } else if format == 4 {
        format4_glyphs(start.advanced(2), text)
    } else if format == 0 {
        format0_glyphs(start.advanced(2), text)
    } else if format == 6 {
        format6_glyphs(start.advanced(2), text)
    } else {
        Ok(Seq::empty())
    }
}

/// The glyph indices of `text` by the character map at `cmap_offset`.
///
/// An offset of zero stands for a font without the table, which is an
/// `InvalidFontTable`. The header (version, record count) is read as one,
/// and so are the encoding records, all of them before one is chosen.
pub open spec fn cmap_glyphs(bytes: Seq<u8>, cmap_offset: u32, text: Seq<char>) -> Result<
    Seq<u32>,
    FontError,
> {
    let start = CursorState { bytes, pos: cmap_offset as int, table: Table::Cmap };
    let count = u16_at(bytes, cmap_offset + 2);
    let records = start.advanced(4);
    if cmap_offset == 0 {
        Err(failure(ErrorKind::InvalidFontTable, Table::Cmap, 0))
    } else if cmap_offset > bytes.len() {
        Err(start.out_of_range(cmap_offset as int))
    } else if !start.fits(4) {
        Err(start.truncated())
    } else if !records.fits(8 * count) {
        Err(records.truncated())
    } else {
        match unicode_subtable(bytes, records.pos, count as nat) {
            None => Ok(Seq::empty()),
            Some(offset) => subtable_glyphs(bytes, cmap_offset + offset, text),
        }
    }
}

/// A character map gives at most one glyph for each character.
pub proof fn lemma_cmap_glyphs_len(bytes: Seq<u8>, cmap_offset: u32, text: Seq<char>)
    ensures
        cmap_glyphs(bytes, cmap_offset, text) matches Ok(glyphs) ==> glyphs.len() <= text.len(),
{
    if cmap_glyphs(bytes, cmap_offset, text) is Ok {
        let count = u16_at(bytes, cmap_offset + 2);
        match unicode_subtable(bytes, cmap_offset + 4, count as nat) {
            None => {},
            Some(offset) => {
                let at = cmap_offset + offset;
                let body = (CursorState { bytes, pos: at, table: Table::Cmap }).advanced(2);
                let format = u16_at(bytes, at);
                let codes = code_points(text);
                if format == 4 {
                    segments_at(bytes, body.pos).lemma_glyphs_len(body, codes);
                } else if format == 6 {
                    lemma_trimmed_glyphs(
                        u16_at(bytes, body.pos),
                        u16s_at(bytes, body.pos + 4, u16_at(bytes, body.pos + 2) as int),
                        codes,
                    );
                }
            },
        }
    }
}

/// Maps the characters of `input_string` to glyph indices by the character
/// map that `data` holds at `cmap_offset`. The result has one index for each
/// character that the map covers, in the order of the characters.
#[verifier::loop_isolation(false)]
pub fn parse_cmap(data: &[u8], cmap_offset: u32, input_string: &str) -> (result: Result<
    Vec<u32>,
    FontError,
>)
    ensures
        yields(result, cmap_glyphs(data@, cmap_offset, input_string@)),
{
    if cmap_offset == 0 {
        return Err(FontError { kind: ErrorKind::InvalidFontTable, table: Table::Cmap, offset: 0 });
    }
    let mut cursor = ByteCursor::open(data, Table::Cmap);
    cursor.seek_absolute(cmap_offset as u64)?;
    cursor.require(4)?;
    let _version = cursor.read_u16()?;
    let num_subtables = cursor.read_u16()?;
    cursor.require(8 * num_subtables as usize)?;

    let ghost records = cursor@;
    let mut chosen: Option<u32> = None;
    let mut i: u16 = 0;
    while i < num_subtables
        invariant
            i <= num_subtables,
            cursor@ == records.advanced(8 * i),
            unicode_subtable(data@, records.pos, num_subtables as nat) == match chosen {
                Some(offset) => Some(offset),
                None => unicode_subtable(data@, records.pos + 8 * i, (num_subtables - i) as nat),
            },
        decreases num_subtables - i,
    {
        let platform_id = cursor.read_u16()?;
        let encoding_id = cursor.read_u16()?;
        let subtable_offset = cursor.read_u32()?;
        if chosen.is_none() && platform_id == 3 && encoding_id == 1 {
            chosen = Some(subtable_offset);
        }
        i = i + 1;
    }

    match chosen {
        None => Ok(Vec::new()),
        Some(subtable_offset) => {
            cursor.seek_absolute(cmap_offset as u64 + subtable_offset as u64)?;
            let format = cursor.read_u16()?;
            if format == 4 {
                parse_format4(&mut cursor, input_string)
            } else if format == 0 {
                parse_format0(&mut cursor, input_string)
            } else if format == 6 {
                parse_format6(&mut cursor, input_string)
            } else {
                Ok(Vec::new())
            }
        },
    }
}

} // verus!
