//! Horizontal metrics: the advance width of each glyph, and their sum for a
//! sequence of glyphs.

use crate::cursor::{failure, ByteCursor, CursorState};
use crate::endian::u16_at;
use crate::error::{ErrorKind, FontError, Table};
use vstd::pervasive::unreached;
use vstd::prelude::*;

verus! {

/// The advance width of `glyph` where `metrics` holds the widths that the
/// font spells out: its own where it has one, and that of the last glyph
/// that has one for every glyph behind that.
pub open spec fn advance_of(metrics: Seq<u16>, glyph: u32) -> u16 {
    if glyph < metrics.len() {
        metrics[glyph as int]
    } else {
        metrics[metrics.len() - 1]
    }
}

/// The sum of the advance widths of `glyphs`.
pub open spec fn total_advance(metrics: Seq<u16>, glyphs: Seq<u32>) -> int
    decreases glyphs.len(),
{
    if glyphs.len() == 0 {
        0
    } else {
        total_advance(metrics, glyphs.drop_last()) + advance_of(metrics, glyphs.last())
    }
}

/// The advance widths that `count` four-byte metrics from `at` hold, each an
/// advance width followed by a left side bearing.
pub open spec fn long_metrics(bytes: Seq<u8>, at: int, count: int) -> Seq<u16> {
    Seq::new(count as nat, |i: int| u16_at(bytes, at + 4 * i))
}

/// The number of glyphs that the table at `maxp_offset` declares, read
/// behind a version field of four bytes that is skipped.
///
/// An offset of zero stands for a font without the table, which is an
/// `InvalidFontTable`. Where the version field leaves the buffer, the skip
/// is an `InvalidOffset` at the start of the table.
pub open spec fn glyph_count(bytes: Seq<u8>, maxp_offset: u32) -> Result<u16, FontError> {
    let start = CursorState { bytes, pos: maxp_offset as int, table: Table::Maxp };
    let field = start.advanced(4);
    if maxp_offset == 0 {
        Err(failure(ErrorKind::InvalidFontTable, Table::Maxp, 0))
    } else if !start.fits(4) {
        Err(start.out_of_range(maxp_offset as int))
    } else if !field.fits(2) {
        Err(field.truncated())
    } else {
        Ok(u16_at(bytes, field.pos))
    }
}

/// The sum of the advance widths of `glyphs` by the metrics at
/// `hmtx_offset`, however large it is.
///
/// A font without one of the two tables, or one that spells out no metric
/// at all, is an `InvalidFontTable`. The metrics are read as one, and so are
/// the left side bearings that follow them, one for each glyph that the
/// font declares beyond the metrics.
pub open spec fn advance_total(
    bytes: Seq<u8>,
    glyphs: Seq<u32>,
    num_h_metrics: u16,
    hmtx_offset: u32,
    maxp_offset: u32,
) -> Result<int, FontError> {
    let start = CursorState { bytes, pos: hmtx_offset as int, table: Table::Hmtx };
    let bearings = start.advanced(4 * num_h_metrics);
    if hmtx_offset == 0 {
        Err(failure(ErrorKind::InvalidFontTable, Table::Hmtx, 0))
    } else if maxp_offset == 0 {
        Err(failure(ErrorKind::InvalidFontTable, Table::Maxp, 0))
    } else if num_h_metrics == 0 {
        Err(failure(ErrorKind::InvalidFontTable, Table::Hmtx, hmtx_offset as int))
    } else {
        match glyph_count(bytes, maxp_offset) {
            Err(error) => Err(error),
            Ok(num_glyphs) => {
                if hmtx_offset > bytes.len() {
                    Err(start.out_of_range(hmtx_offset as int))
                } else if !start.fits(4 * num_h_metrics) {
                    Err(start.truncated())
                } else if num_glyphs > num_h_metrics && !bearings.fits(
                    2 * (num_glyphs - num_h_metrics),
                ) {
                    Err(bearings.truncated())
                } else {
                    Ok(
                        total_advance(
                            long_metrics(bytes, hmtx_offset as int, num_h_metrics as int),
                            glyphs,
                        ),
                    )
                }
            },
        }
    }
}

/// `advance_total` as a 32-bit value, which it is where it is at most the
/// largest of them.
pub open spec fn advance_sum(
    bytes: Seq<u8>,
    glyphs: Seq<u32>,
    num_h_metrics: u16,
    hmtx_offset: u32,
    maxp_offset: u32,
) -> Result<u32, FontError> {
    match advance_total(bytes, glyphs, num_h_metrics, hmtx_offset, maxp_offset) {
        Ok(total) => Ok(total as u32),
        Err(error) => Err(error),
    }
}

/// `advance_total` where it fits in 32 bits, and nothing where it does not.
pub open spec fn checked_advance_sum(
    bytes: Seq<u8>,
    glyphs: Seq<u32>,
    num_h_metrics: u16,
    hmtx_offset: u32,
    maxp_offset: u32,
) -> Result<Option<u32>, FontError> {
    match advance_total(bytes, glyphs, num_h_metrics, hmtx_offset, maxp_offset) {
        Ok(total) => Ok(
            if total <= u32::MAX {
                Some(total as u32)
            } else {
                None
            },
        ),
        Err(error) => Err(error),
    }
}

/// The sum over two sequences, one behind the other, is the sum of their
/// sums. So the order of the glyphs does not matter to the total.
pub proof fn lemma_total_advance_additive(metrics: Seq<u16>, first: Seq<u32>, second: Seq<u32>)
    ensures
        total_advance(metrics, first + second) == total_advance(metrics, first) + total_advance(
            metrics,
            second,
        ),
    decreases second.len(),
{
    if second.len() == 0 {
        assert(first + second =~= first);
    } else {
        assert((first + second).drop_last() =~= first + second.drop_last());
        lemma_total_advance_additive(metrics, first, second.drop_last());
    }
}

/// The sum over the first glyphs of a sequence is at most the sum over all
/// of them.
pub proof fn lemma_total_advance_grows(metrics: Seq<u16>, glyphs: Seq<u32>, upto: int)
    requires
        0 <= upto <= glyphs.len(),
    ensures
        total_advance(metrics, glyphs.take(upto)) <= total_advance(metrics, glyphs),
{
    assert(glyphs.take(upto) + glyphs.skip(upto) =~= glyphs);
    lemma_total_advance_additive(metrics, glyphs.take(upto), glyphs.skip(upto));
    lemma_total_advance_bounds(metrics, glyphs.skip(upto));
}

/// For at most 65536 glyphs the sum fits in 32 bits, whatever the metrics
/// are.
pub proof fn lemma_short_sequence_fits(
    bytes: Seq<u8>,
    glyphs: Seq<u32>,
    num_h_metrics: u16,
    hmtx_offset: u32,
    maxp_offset: u32,
)
    requires
        glyphs.len() <= 0x1_0000,
    ensures
        advance_total(bytes, glyphs, num_h_metrics, hmtx_offset, maxp_offset) matches Ok(total)
            ==> total <= u32::MAX,
{
    lemma_total_advance_bounds(
        long_metrics(bytes, hmtx_offset as int, num_h_metrics as int),
        glyphs,
    );
}

/// The sum of the advances depends on the bytes, the glyphs, the count of
/// metrics and the offsets of the two tables that are read, and on nothing
/// else: two results that are this sum are equal.
pub proof fn lemma_advance_sum_once(
    first: Result<u32, FontError>,
    second: Result<u32, FontError>,
    bytes: Seq<u8>,
    glyphs: Seq<u32>,
    num_h_metrics: u16,
    hmtx_offset: u32,
    maxp_offset: u32,
)
    requires
        first == advance_sum(bytes, glyphs, num_h_metrics, hmtx_offset, maxp_offset),
        second == advance_sum(bytes, glyphs, num_h_metrics, hmtx_offset, maxp_offset),
    ensures
        first == second,
{
}

/// No advance width is above 65535, so the sum over a sequence is bounded
/// by its length.
pub proof fn lemma_total_advance_bounds(metrics: Seq<u16>, glyphs: Seq<u32>)
    ensures
        0 <= total_advance(metrics, glyphs) <= 0xFFFF * glyphs.len(),
    decreases glyphs.len(),
{
    if glyphs.len() > 0 {
        lemma_total_advance_bounds(metrics, glyphs.drop_last());
    }
}

/// The advance width of one glyph. From the last spelled-out metric on,
/// every glyph index gets the width of that metric, however far behind it
/// the index lies.
pub fn advance_width(metrics: &[u16], glyph_index: u32) -> (width: u16)
    requires
        metrics@.len() >= 1,
    ensures
        width == advance_of(metrics@, glyph_index),
        glyph_index >= metrics@.len() ==> width == metrics@[metrics@.len() - 1],
{
    if (glyph_index as u64) < metrics.len() as u64 {
        metrics[glyph_index as usize]
    } else {
        metrics[metrics.len() - 1]
    }
}

/// Reads the glyph count of the `maxp` table.
pub fn read_glyph_count(data: &[u8], maxp_offset: u32) -> (result: Result<u16, FontError>)
    ensures
        result == glyph_count(data@, maxp_offset),
{
    if maxp_offset == 0 {
        return Err(FontError { kind: ErrorKind::InvalidFontTable, table: Table::Maxp, offset: 0 });
    }
    let mut cursor = ByteCursor::open(data, Table::Maxp);
    cursor.seek_absolute(maxp_offset as u64)?;
    cursor.seek_relative(4)?;
    cursor.read_u16()
}

/// Adds up the advance widths of `glyph_indices` by the horizontal metrics
/// that `data` holds at `hmtx_offset`, of which the font spells out
/// `num_h_metrics`. Where the tables can be read and the sum does not fit in
/// 32 bits, there is no result.
#[verifier::loop_isolation(false)]
pub fn try_parse_hmtx(
    data: &[u8],
    glyph_indices: &[u32],
    num_h_metrics: u16,
    hmtx_offset: u32,
    maxp_offset: u32,
) -> (result: Result<Option<u32>, FontError>)
    ensures
        result == checked_advance_sum(
            data@,
            glyph_indices@,
            num_h_metrics,
            hmtx_offset,
            maxp_offset,
        ),
{
    if hmtx_offset == 0 {
        return Err(FontError { kind: ErrorKind::InvalidFontTable, table: Table::Hmtx, offset: 0 });
    }
    if maxp_offset == 0 {
        return Err(FontError { kind: ErrorKind::InvalidFontTable, table: Table::Maxp, offset: 0 });
    }
    if num_h_metrics == 0 {
        return Err(
            FontError {
                kind: ErrorKind::InvalidFontTable,
                table: Table::Hmtx,
                offset: hmtx_offset as u64,
            },
        );
    }
    let num_glyphs = read_glyph_count(data, maxp_offset)?;

    let mut cursor = ByteCursor::open(data, Table::Hmtx);
    cursor.seek_absolute(hmtx_offset as u64)?;
    cursor.require(4 * num_h_metrics as usize)?;
    let ghost metrics = long_metrics(data@, hmtx_offset as int, num_h_metrics as int);
    let mut h_metrics: Vec<u16> = Vec::new();
    let mut read: u16 = 0;
    while read < num_h_metrics
        invariant
            read <= num_h_metrics,
            cursor@ == (CursorState { bytes: data@, pos: hmtx_offset + 4 * read, table: Table::Hmtx }),
            h_metrics@ == long_metrics(data@, hmtx_offset as int, read as int),
        decreases num_h_metrics - read,
    {
        let width = cursor.read_u16()?;
        let _lsb = cursor.read_i16()?;
        h_metrics.push(width);
        read = read + 1;
    }
    if num_glyphs > num_h_metrics {
        cursor.require(2 * (num_glyphs - num_h_metrics) as usize)?;
    }

    let mut total_width: u32 = 0;
    let mut i: usize = 0;
    assert(glyph_indices@.take(0) =~= Seq::<u32>::empty());
    while i < glyph_indices.len()
        invariant
            i <= glyph_indices@.len(),
            total_width == total_advance(metrics, glyph_indices@.take(i as int)),
        decreases glyph_indices@.len() - i,
    {
        assert(glyph_indices@.take(i + 1).drop_last() =~= glyph_indices@.take(i as int));
        let width = advance_width(h_metrics.as_slice(), glyph_indices[i]);
        if width as u32 > u32::MAX - total_width {
            proof {
                lemma_total_advance_grows(metrics, glyph_indices@, i + 1);
            }
            return Ok(None);
        }
        total_width = total_width + width as u32;
        i = i + 1;
    }
    assert(glyph_indices@.take(i as int) =~= glyph_indices@);
    Ok(Some(total_width))
}

/// Adds up the advance widths of `glyph_indices` by the horizontal metrics
/// that `data` holds at `hmtx_offset`, of which the font spells out
/// `num_h_metrics`.
///
/// The sum must fit in 32 bits, which that of at most 65536 glyphs always
/// does.
pub fn parse_hmtx(
    data: &[u8],
    glyph_indices: &[u32],
    num_h_metrics: u16,
    hmtx_offset: u32,
    _hhea_offset: u32,
    maxp_offset: u32,
) -> (result: Result<u32, FontError>)
    requires
        advance_total(data@, glyph_indices@, num_h_metrics, hmtx_offset, maxp_offset) matches Ok(
            total,
        ) ==> total <= u32::MAX,
    ensures
        result == advance_sum(data@, glyph_indices@, num_h_metrics, hmtx_offset, maxp_offset),
{
    match try_parse_hmtx(data, glyph_indices, num_h_metrics, hmtx_offset, maxp_offset) {
        Ok(Some(total_width)) => Ok(total_width),
        Ok(None) => unreached(),
        Err(error) => Err(error),
    }
}

} // verus!
