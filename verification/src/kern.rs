//! The kerning table: adjustments to the advance between two glyphs that
//! stand next to each other.

use crate::cursor::{ByteCursor, CursorState};
use crate::endian::{i16_at, u16_at};
use crate::error::{FontError, Table};
use std::collections::HashMap;
use vstd::pervasive::unreached;
use vstd::prelude::*;

verus! {

/// The pairs of a kerning table as a map from the left and the right glyph
/// to the adjustment.
pub type KerningPairs = Map<(u16, u16), i16>;

/// `known`, with the first `count` six-byte entries (left glyph, right
/// glyph, adjustment) from `at` put in one after the other. An entry
/// replaces what an earlier one gave to the same two glyphs.
pub open spec fn with_pairs(known: KerningPairs, bytes: Seq<u8>, at: int, count: nat) -> KerningPairs
    decreases count,
{
    if count == 0 {
        known
    } else {
        let entry = at + 6 * (count - 1);
        with_pairs(known, bytes, at, (count - 1) as nat).insert(
            (u16_at(bytes, entry), u16_at(bytes, entry + 2)),
            i16_at(bytes, entry + 4),
        )
    }
}

/// `known`, with the pairs of the next `count` subtables from `start` put in.
///
/// A subtable begins with six bytes, read as one: its version, its length
/// and its coverage, whose high byte is the format. In format 0 the pair
/// count follows, then six bytes that are skipped, then the entries, read as
/// one; the next subtable begins behind the last entry. In any other format
/// the subtable is passed over, and the next one begins `length` bytes from
/// where this one began.
///
/// What is read and does not fit is a `TruncatedInput` where it begins; a
/// skip that would leave the buffer is an `InvalidOffset` where it starts.
pub open spec fn kern_subtables(start: CursorState, count: nat, known: KerningPairs) -> Result<
    KerningPairs,
    FontError,
>
    decreases count,
{
    let length = u16_at(start.bytes, start.pos + 2);
    let coverage = u16_at(start.bytes, start.pos + 4);
    let body = start.advanced(6);
    let pair_count = u16_at(start.bytes, body.pos);
    let hints = body.advanced(2);
    let entries = hints.advanced(6);
    if count == 0 {
        Ok(known)
    } else if !start.fits(6) {
        Err(start.truncated())
    } else if coverage / 256 != 0 {
        if !start.fits(length as int) {
            Err(body.out_of_range(body.pos))
        } else {
            kern_subtables(start.advanced(length as int), (count - 1) as nat, known)
        }
    } else if !body.fits(2) {
        Err(body.truncated())
    } else if !hints.fits(6) {
        Err(hints.out_of_range(hints.pos))
    } else if !entries.fits(6 * pair_count) {
        Err(entries.truncated())
    } else {
        kern_subtables(
            entries.advanced(6 * pair_count),
            (count - 1) as nat,
            with_pairs(known, start.bytes, entries.pos, pair_count as nat),
        )
    }
}

/// The pairs of the kerning table at `kern_offset`.
///
/// An offset of zero stands for a font without the table: it has no pairs.
/// The header (version, subtable count) is read as one.
pub open spec fn kern_pairs(bytes: Seq<u8>, kern_offset: u32) -> Result<KerningPairs, FontError> {
    let start = CursorState { bytes, pos: kern_offset as int, table: Table::Kern };
    if kern_offset == 0 {
        Ok(Map::empty())
    } else if kern_offset > bytes.len() {
        Err(start.out_of_range(kern_offset as int))
    } else if !start.fits(4) {
        Err(start.truncated())
    } else {
        kern_subtables(start.advanced(4), u16_at(bytes, kern_offset + 2) as nat, Map::empty())
    }
}

/// The adjustment between two glyphs that stand next to each other: what
/// the pairs give them, and nothing where they give nothing or where one of
/// the indices does not fit in 16 bits.
pub open spec fn pair_adjustment(pairs: KerningPairs, left: u32, right: u32) -> int {
    if left <= 0xFFFF && right <= 0xFFFF && pairs.contains_key((left as u16, right as u16)) {
        pairs[(left as u16, right as u16)] as int
    } else {
        0
    }
}

/// The sum of the adjustments of all neighbours in `glyphs`.
pub open spec fn kerning_total(pairs: KerningPairs, glyphs: Seq<u32>) -> int
    decreases glyphs.len(),
{
    if glyphs.len() < 2 {
        0
    } else {
        kerning_total(pairs, glyphs.drop_last()) + pair_adjustment(
            pairs,
            glyphs[glyphs.len() - 2],
            glyphs[glyphs.len() - 1],
        )
    }
}

/// Whether a sum of adjustments fits in 32 bits with a sign.
pub open spec fn fits_i32(total: int) -> bool {
    i32::MIN <= total <= i32::MAX
}

/// The kerning of `glyphs` by the table at `kern_offset`, however large it
/// is.
pub open spec fn kerning_sum(bytes: Seq<u8>, glyphs: Seq<u32>, kern_offset: u32) -> Result<
    int,
    FontError,
> {
    match kern_pairs(bytes, kern_offset) {
        Ok(pairs) => Ok(kerning_total(pairs, glyphs)),
        Err(error) => Err(error),
    }
}

/// `kerning_sum` as a 32-bit value, which it is where it fits in one.
pub open spec fn kerning_of(bytes: Seq<u8>, glyphs: Seq<u32>, kern_offset: u32) -> Result<
    i32,
    FontError,
> {
    match kerning_sum(bytes, glyphs, kern_offset) {
        Ok(total) => Ok(total as i32),
        Err(error) => Err(error),
    }
}

/// `kerning_sum` where it fits in 32 bits, and nothing where it does not.
pub open spec fn checked_kerning_of(bytes: Seq<u8>, glyphs: Seq<u32>, kern_offset: u32) -> Result<
    Option<i32>,
    FontError,
> {
    match kerning_sum(bytes, glyphs, kern_offset) {
        Ok(total) => Ok(
            if fits_i32(total) {
                Some(total as i32)
            } else {
                None
            },
        ),
        Err(error) => Err(error),
    }
}

/// The two glyphs of a pair as one number, the left one in the high half.
pub open spec fn pair_key(left: u16, right: u16) -> u32 {
    (left as int * 0x1_0000 + right as int) as u32
}

/// Two glyphs in sequence are adjusted by what the pairs hold for them.
pub proof fn lemma_known_pair(pairs: KerningPairs, left: u16, right: u16)
    requires
        pairs.contains_key((left, right)),
    ensures
        kerning_total(pairs, seq![left as u32, right as u32]) == pairs[(left, right)],
{
    let glyphs = seq![left as u32, right as u32];
    assert(kerning_total(pairs, glyphs.drop_last()) == 0);
}

/// Each adjustment lies between the least and the greatest `i16`, so the
/// total of a sequence is bounded by its length.
pub proof fn lemma_kerning_total_bounds(pairs: KerningPairs, glyphs: Seq<u32>)
    ensures
        glyphs.len() < 2 ==> kerning_total(pairs, glyphs) == 0,
        glyphs.len() >= 1 ==> -32768 * (glyphs.len() - 1) <= kerning_total(pairs, glyphs) <= 32767
            * (glyphs.len() - 1),
    decreases glyphs.len(),
{
    if glyphs.len() >= 2 {
        lemma_kerning_total_bounds(pairs, glyphs.drop_last());
    }
}

/// For at most 65536 glyphs the kerning fits in 32 bits, whatever the pairs
/// are.
pub proof fn lemma_short_sequence_fits(pairs: KerningPairs, glyphs: Seq<u32>)
    requires
        glyphs.len() <= 0x1_0000,
    ensures
        fits_i32(kerning_total(pairs, glyphs)),
{
    lemma_kerning_total_bounds(pairs, glyphs);
}

/// Of the entries put in, the last one for two glyphs decides.
pub proof fn lemma_last_pair_wins(known: KerningPairs, bytes: Seq<u8>, at: int, count: nat, k: int)
    requires
        0 <= k < count,
        forall|j: int|
            k < j < count ==> (#[trigger] u16_at(bytes, at + 6 * j), u16_at(bytes, at + 6 * j + 2))
                != (u16_at(bytes, at + 6 * k), u16_at(bytes, at + 6 * k + 2)),
    ensures
        with_pairs(known, bytes, at, count).contains_key(
            (u16_at(bytes, at + 6 * k), u16_at(bytes, at + 6 * k + 2)),
        ),
        with_pairs(known, bytes, at, count)[(
            u16_at(bytes, at + 6 * k),
            u16_at(bytes, at + 6 * k + 2),
        )] == i16_at(bytes, at + 6 * k + 4),
    decreases count,
{
    if k < count - 1 {
        lemma_last_pair_wins(known, bytes, at, (count - 1) as nat, k);
        let j = count - 1;
        assert((u16_at(bytes, at + 6 * j), u16_at(bytes, at + 6 * j + 2)) != (
            u16_at(bytes, at + 6 * k),
            u16_at(bytes, at + 6 * k + 2),
        ));
    }
}

/// The pairs of a font's kerning table, ready to be looked up.
pub struct KerningTable {
    pairs: HashMap<u32, i16>,
}

impl View for KerningTable {
    type V = KerningPairs;

    closed spec fn view(&self) -> KerningPairs {
        Map::new(
            |pair: (u16, u16)| self.pairs@.contains_key(pair_key(pair.0, pair.1)),
            |pair: (u16, u16)| self.pairs@[pair_key(pair.0, pair.1)],
        )
    }
}

impl KerningTable {
    /// Reads the kerning table that `data` holds at `kern_offset`. Only
    /// subtables of format 0 give pairs; the others are passed over.
    #[verifier::loop_isolation(false)]
    pub fn build(data: &[u8], kern_offset: u32) -> (result: Result<KerningTable, FontError>)
        ensures
            match kern_pairs(data@, kern_offset) {
                Ok(pairs) => result matches Ok(table) && table@ == pairs,
                Err(error) => result matches Err(found) && found == error,
            },
    {
        let mut table = KerningTable { pairs: HashMap::new() };
        assert(table@ =~= Map::empty());
        if kern_offset == 0 {
            return Ok(table);
        }
        let mut cursor = ByteCursor::open(data, Table::Kern);
        cursor.seek_absolute(kern_offset as u64)?;
        cursor.require(4)?;
        let _version = cursor.read_u16()?;
        let n_tables = cursor.read_u16()?;

        let ghost first = cursor@;
        let mut done: u16 = 0;
        while done < n_tables
            invariant
                done <= n_tables,
                cursor@.bytes == data@,
                cursor@.table == Table::Kern,
                kern_subtables(first, n_tables as nat, Map::empty()) == kern_subtables(
                    cursor@,
                    (n_tables - done) as nat,
                    table@,
                ),
            decreases n_tables - done,
        {
            let ghost known = table@;
            cursor.require(6)?;
            let _version = cursor.read_u16()?;
            let length = cursor.read_u16()?;
            let coverage = cursor.read_u16()?;
            let format = (coverage >> 8) & 0xFF;
            assert((coverage >> 8) & 0xFF == coverage / 256) by (bit_vector);

            if format == 0 {
                let n_pairs = cursor.read_u16()?;
                cursor.seek_relative(6)?;
                cursor.require(6 * n_pairs as usize)?;
                let ghost entries = cursor@;
                let mut read: u16 = 0;
                while read < n_pairs
                    invariant
                        read <= n_pairs,
                        cursor@ == entries.advanced(6 * read),
                        table@ == with_pairs(known, data@, entries.pos, read as nat),
                    decreases n_pairs - read,
                {
                    let left = cursor.read_u16()?;
                    let right = cursor.read_u16()?;
                    let value = cursor.read_i16()?;
                    let ghost before = table@;
                    table.pairs.insert(left as u32 * 65536 + right as u32, value);
                    assert(table@ =~= before.insert((left, right), value));
                    read = read + 1;
                }
            } else {
                cursor.seek_relative(length as i64 - 6)?;
            }
            done = done + 1;
        }
        Ok(table)
    }

    /// Adds up the adjustments of all neighbours in `glyph_indices`. A pair
    /// with a glyph index above 65535 adds nothing. Where the sum does not
    /// fit in 32 bits, there is no result.
    pub fn checked_total_adjustment(&self, glyph_indices: &[u32]) -> (total: Option<i32>)
        ensures
            total == if fits_i32(kerning_total(self@, glyph_indices@)) {
                Some(kerning_total(self@, glyph_indices@) as i32)
            } else {
                None::<i32>
            },
    {
        let mut total: i128 = 0;
        let mut i: usize = 1;
        proof {
            lemma_kerning_total_bounds(self@, glyph_indices@.take(1));
            lemma_kerning_total_bounds(self@, glyph_indices@);
        }
        while i < glyph_indices.len()
            invariant
                1 <= i,
                i <= glyph_indices@.len() || glyph_indices@.len() == 0,
                glyph_indices@.len() >= 1 ==> total == kerning_total(
                    self@,
                    glyph_indices@.take(i as int),
                ),
                glyph_indices@.len() == 0 ==> total == 0,
            decreases glyph_indices@.len() - i,
        {
            let left = glyph_indices[i - 1];
            let right = glyph_indices[i];
            proof {
                assert(glyph_indices@.take(i + 1).drop_last() =~= glyph_indices@.take(i as int));
                lemma_kerning_total_bounds(self@, glyph_indices@.take(i as int));
            }
            if left <= 0xFFFF && right <= 0xFFFF {
                let found = self.pairs.get(&(left * 65536 + right));
                if let Some(value) = found {
                    total = total + *value as i128;
                }
            }
            i = i + 1;
        }
        assert(glyph_indices@.len() >= 1 ==> glyph_indices@.take(i as int) =~= glyph_indices@);
        if -2147483648 <= total && total <= 2147483647 {
            Some(total as i32)
        } else {
            None
        }
    }

    /// Adds up the adjustments of all neighbours in `glyph_indices`. A pair
    /// with a glyph index above 65535 adds nothing.
    ///
    /// The sum must fit in 32 bits, which that of at most 65536 glyphs always
    /// does.
    pub fn total_adjustment(&self, glyph_indices: &[u32]) -> (total: i32)
        requires
            fits_i32(kerning_total(self@, glyph_indices@)),
        ensures
            total == kerning_total(self@, glyph_indices@),
            glyph_indices@.len() < 2 ==> total == 0,
    {
        match self.checked_total_adjustment(glyph_indices) {
            Some(total) => total,
            None => unreached(),
        }
    }
}

/// Reads the kerning table that `data` holds at `kern_offset` and adds up
/// its adjustments for `glyph_indices`. A font without the table, which an
/// offset of zero stands for, adjusts nothing. Where the table can be read
/// and the sum does not fit in 32 bits, there is no result.
pub fn try_parse_kern_table(data: &[u8], glyph_indices: &[u32], kern_offset: u32) -> (result:
    Result<Option<i32>, FontError>)
    ensures
        result == checked_kerning_of(data@, glyph_indices@, kern_offset),
{
    let table = KerningTable::build(data, kern_offset)?;
    Ok(table.checked_total_adjustment(glyph_indices))
}

/// Reads the kerning table that `data` holds at `kern_offset` and adds up
/// its adjustments for `glyph_indices`. A font without the table, which an
/// offset of zero stands for, adjusts nothing.
///
/// The sum must fit in 32 bits, which that of at most 65536 glyphs always
/// does.
pub fn parse_kern_table(data: &[u8], glyph_indices: &[u32], kern_offset: u32) -> (result: Result<
    i32,
    FontError,
>)
    requires
        kerning_sum(data@, glyph_indices@, kern_offset) matches Ok(total) ==> fits_i32(total),
    ensures
        result == kerning_of(data@, glyph_indices@, kern_offset),
{
    let table = KerningTable::build(data, kern_offset)?;
    Ok(table.total_adjustment(glyph_indices))
}

} // verus!
