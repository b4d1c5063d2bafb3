//! The two header tables, of which one value each is read: the units per
//! em of `head` and the count of horizontal metrics of `hhea`.

use crate::cursor::{failure, ByteCursor, CursorState};
use crate::endian::u16_at;
use crate::error::{ErrorKind, FontError, Table};
use vstd::prelude::*;

verus! {

/// The units per em: the 16-bit value at byte 18 of the table at
/// `head_offset`. An offset of zero stands for a font without the table,
/// which is an `InvalidFontTable`.
pub open spec fn units_per_em(bytes: Seq<u8>, head_offset: u32) -> Result<u16, FontError> {
    let field = CursorState { bytes, pos: head_offset + 18, table: Table::Head };
    if head_offset == 0 {
        Err(failure(ErrorKind::InvalidFontTable, Table::Head, 0))
    } else if field.pos > bytes.len() {
        Err(field.out_of_range(field.pos))
    } else if !field.fits(2) {
        Err(field.truncated())
    } else {
        Ok(u16_at(bytes, field.pos))
    }
}

/// The count of horizontal metrics: the 16-bit value behind a version of
/// four bytes and three 16-bit values at the start of the table at
/// `hhea_offset`, the twelve bytes read as one. An offset of zero stands for
/// a font without the table, which is an `InvalidFontTable`.
pub open spec fn metric_count(bytes: Seq<u8>, hhea_offset: u32) -> Result<u16, FontError> {
    let start = CursorState { bytes, pos: hhea_offset as int, table: Table::Hhea };
    if hhea_offset == 0 {
        Err(failure(ErrorKind::InvalidFontTable, Table::Hhea, 0))
    } else if hhea_offset > bytes.len() {
        Err(start.out_of_range(hhea_offset as int))
    } else if !start.fits(12) {
        Err(start.truncated())
    } else {
        Ok(u16_at(bytes, hhea_offset + 10))
    }
}

/// Reads the units per em from the `head` table.
pub fn parse_head(data: &[u8], head_offset: u32) -> (result: Result<u16, FontError>)
    ensures
        result == units_per_em(data@, head_offset),
{
    if head_offset == 0 {
        return Err(FontError { kind: ErrorKind::InvalidFontTable, table: Table::Head, offset: 0 });
    }
    let mut cursor = ByteCursor::open(data, Table::Head);
    cursor.seek_absolute(head_offset as u64 + 18)?;
    cursor.read_u16()
}

/// Reads the count of horizontal metrics from the `hhea` table.
pub fn parse_hhea(data: &[u8], hhea_offset: u32) -> (result: Result<u16, FontError>)
    ensures
        result == metric_count(data@, hhea_offset),
{
    if hhea_offset == 0 {
        return Err(FontError { kind: ErrorKind::InvalidFontTable, table: Table::Hhea, offset: 0 });
    }
    let mut cursor = ByteCursor::open(data, Table::Hhea);
    cursor.seek_absolute(hhea_offset as u64)?;
    cursor.require(12)?;
    let _version = cursor.read_u32()?;
    let _ascent = cursor.read_i16()?;
    let _descent = cursor.read_i16()?;
    let _line_gap = cursor.read_i16()?;
    cursor.read_u16()
}

} // verus!
