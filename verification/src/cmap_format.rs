//! The three character-map subtable formats that are decoded: the byte
//! table (format 0), the segment table (format 4) and the trimmed table
//! (format 6).
//!
//! Each decoder starts at a cursor that stands just behind the subtable's
//! 16-bit format selector and maps the characters of a string, in order, to
//! glyph indices. A character is looked up by its whole code point, and one
//! that the subtable does not cover is left out.

use crate::cursor::{failure, u16s_at, ByteCursor, CursorState};
use crate::endian::u16_at;
use crate::error::{yields, ErrorKind, FontError};
use crate::text::{code_points, points_of};
use vstd::prelude::*;

verus! {

/// The segments of a format 4 subtable: four parallel arrays, and the byte
/// offset just behind the last of them, where the glyph-index array begins.
pub struct SegmentTable {
    pub ends: Seq<u16>,
    pub starts: Seq<u16>,
    pub deltas: Seq<u16>,
    pub range_offsets: Seq<u16>,
    pub base: int,
}

impl SegmentTable {
    /// Whether the four arrays have one length.
    pub open spec fn parallel(self) -> bool {
        &&& self.ends.len() == self.starts.len()
        &&& self.deltas.len() == self.starts.len()
        &&& self.range_offsets.len() == self.starts.len()
    }

    /// Whether `code` lies in the range of segment `index`, ends included.
    pub open spec fn covers(self, index: int, code: u32) -> bool {
        self.starts[index] <= code <= self.ends[index]
    }

    /// Whether the ranges are each in order, ascending, and apart from one
    /// another.
    pub open spec fn well_formed(self) -> bool {
        &&& self.parallel()
        &&& forall|i: int| 0 <= i < self.starts.len() ==> self.starts[i] <= self.ends[i]
        &&& forall|i: int, j: int|
            0 <= i < j < self.starts.len() ==> self.ends[i] < self.starts[j]
    }

    /// The index of the first segment from `from` on whose range holds
    /// `code`.
    pub open spec fn first_cover(self, code: u32, from: int) -> Option<int>
        decreases self.starts.len() - from,
    {
        if from < 0 || from >= self.starts.len() {
            None
        } else if self.covers(from, code) {
            Some(from)
        } else {
            self.first_cover(code, from + 1)
        }
    }

    /// The glyph that segment `index` gives to a code in its range.
    ///
    /// With a range offset of zero the glyph is the code plus the delta,
    /// modulo 65536. Otherwise a 16-bit value is looked up at
    /// `base + 2 * index + range_offset + 2 * (code - start)`: zero stands for
    /// the missing glyph as it is, any other value has the delta added modulo
    /// 65536. A position past the buffer's end is an `InvalidOffset` there; a
    /// value that does not fit before the end is a `TruncatedInput` there.
    pub open spec fn segment_glyph(self, font: CursorState, index: int, code: u32) -> Result<
        u32,
        FontError,
    > {
        let delta = self.deltas[index];
        let range_offset = self.range_offsets[index];
        if range_offset == 0 {
            Ok(((code + delta) % 0x1_0000) as u32)
        } else {
            let at = self.base + 2 * index + range_offset + 2 * (code - self.starts[index]);
            if at > font.bytes.len() {
                Err(failure(ErrorKind::InvalidOffset, font.table, at))
            } else if at + 2 > font.bytes.len() {
                Err(failure(ErrorKind::TruncatedInput, font.table, at))
            } else {
                let raw = u16_at(font.bytes, at);
                if raw == 0 {
                    Ok(0)
                } else {
                    Ok(((raw + delta) % 0x1_0000) as u32)
                }
            }
        }
    }

    /// The glyph of one code point: that of the first segment, in stored
    /// order, whose range holds the code, and none where no range holds it,
    /// as none does a code above 65535.
    pub open spec fn glyph(self, font: CursorState, code: u32) -> Result<Option<u32>, FontError> {
        match self.first_cover(code, 0) {
            None => Ok(None),
            Some(index) => match self.segment_glyph(font, index, code) {
                Ok(glyph) => Ok(Some(glyph)),
                Err(error) => Err(error),
            },
        }
    }

    /// The glyphs of a run of code points, in order and without the codes
    /// that have none. The first lookup that fails decides the result.
    pub open spec fn glyphs(self, font: CursorState, codes: Seq<u32>) -> Result<Seq<u32>, FontError>
        decreases codes.len(),
    {
        if codes.len() == 0 {
            Ok(Seq::empty())
        } else {
            match self.glyphs(font, codes.drop_last()) {
                Err(error) => Err(error),
                Ok(before) => match self.glyph(font, codes.last()) {
                    Err(error) => Err(error),
                    Ok(None) => Ok(before),
                    Ok(Some(glyph)) => Ok(before.push(glyph)),
                },
            }
        }
    }

    /// What a search that starts at `from` finds is the least index from
    /// there on whose range holds the code.
    pub proof fn lemma_first_cover(self, code: u32, from: int)
        requires
            0 <= from,
        ensures
            match self.first_cover(code, from) {
                Some(index) => {
                    &&& from <= index < self.starts.len()
                    &&& self.covers(index, code)
                    &&& forall|j: int| from <= j < index ==> !#[trigger] self.covers(j, code)
                },
                None => forall|j: int|
                    from <= j < self.starts.len() ==> !#[trigger] self.covers(j, code),
            },
        decreases self.starts.len() - from,
    {
        if from < self.starts.len() && !self.covers(from, code) {
            self.lemma_first_cover(code, from + 1);
        }
    }

    /// In a well-formed segment table every code in the range of a segment
    /// gets the glyph that this segment gives it by the delta and
    /// range-offset rule.
    pub proof fn lemma_covered_code(self, font: CursorState, index: int, code: u32)
        requires
            self.well_formed(),
            0 <= index < self.starts.len(),
            self.covers(index, code),
        ensures
            self.glyph(font, code) == match self.segment_glyph(font, index, code) {
                Ok(glyph) => Ok::<Option<u32>, FontError>(Some(glyph)),
                Err(error) => Err(error),
            },
    {
        self.lemma_first_cover(code, 0);
        let found = self.first_cover(code, 0)->0;
        if found < index {
            assert(self.ends[found] < self.starts[index]);
        }
    }

    /// A code that lies in no segment's range has no glyph.
    pub proof fn lemma_uncovered_code(self, font: CursorState, code: u32)
        requires
            forall|i: int| 0 <= i < self.starts.len() ==> !#[trigger] self.covers(i, code),
        ensures
            self.glyph(font, code) == Ok::<Option<u32>, FontError>(None),
    {
        self.lemma_first_cover(code, 0);
    }

    /// A code point above 65535 lies in no segment's range, whose ends are
    /// 16-bit values, and has no glyph.
    pub proof fn lemma_code_above_16_bits(self, font: CursorState, code: u32)
        requires
            code > 0xFFFF,
        ensures
            self.glyph(font, code) == Ok::<Option<u32>, FontError>(None),
    {
        self.lemma_uncovered_code(font, code);
    }

    /// A run of codes none of which lies in a segment's range gives no
    /// glyphs.
    pub proof fn lemma_uncovered_codes(self, font: CursorState, codes: Seq<u32>)
        requires
            forall|k: int, i: int|
                0 <= k < codes.len() && 0 <= i < self.starts.len() ==> !#[trigger] self.covers(
                    i,
                    codes[k],
                ),
        ensures
            self.glyphs(font, codes) == Ok::<Seq<u32>, FontError>(Seq::empty()),
        decreases codes.len(),
    {
        if codes.len() > 0 {
            self.lemma_uncovered_codes(font, codes.drop_last());
            self.lemma_uncovered_code(font, codes.last());
        }
    }

    /// The glyph of a code where its lookup succeeds, and none where it
    /// fails or the code lies in no segment's range.
    pub open spec fn found(self, font: CursorState) -> spec_fn(u32) -> Option<u32> {
        |code: u32|
            match self.glyph(font, code) {
                Ok(glyph) => glyph,
                Err(_) => None,
            }
    }

    /// Where no lookup fails, the glyphs of a run of codes are the glyphs of
    /// the codes that lie in a segment's range, in the order of the codes:
    /// the codes outside all ranges are left out and nothing else is.
    pub proof fn lemma_glyphs_of_covered_codes(self, font: CursorState, codes: Seq<u32>)
        ensures
            self.glyphs(font, codes) matches Ok(glyphs) ==> {
                &&& glyphs == codes.filter_map(self.found(font))
                &&& forall|k: int| 0 <= k < codes.len() ==> self.glyph(font, #[trigger] codes[k]) is Ok
            },
            self.glyphs(font, codes) is Err ==> exists|k: int|
                0 <= k < codes.len() && self.glyph(font, #[trigger] codes[k]) is Err,
        decreases codes.len(),
    {
        if codes.len() > 0 {
            let before = codes.drop_last();
            self.lemma_glyphs_of_covered_codes(font, before);
            if self.glyphs(font, before) is Err {
                let k = choose|k: int|
                    0 <= k < before.len() && self.glyph(font, #[trigger] before[k]) is Err;
                assert(codes[k] == before[k]);
            } else if self.glyph(font, codes.last()) is Err {
                assert(codes[codes.len() - 1] == codes.last());
            } else {
                let glyphs = self.glyphs(font, codes)->Ok_0;
                assert(glyphs =~= codes.filter_map(self.found(font)));
                assert forall|k: int| 0 <= k < codes.len() implies self.glyph(
                    font,
                    #[trigger] codes[k],
                ) is Ok by {
                    if k < before.len() {
                        assert(codes[k] == before[k]);
                    }
                }
            }
        }
    }

    /// Never more glyphs come out than codes went in.
    pub proof fn lemma_glyphs_len(self, font: CursorState, codes: Seq<u32>)
        ensures
            self.glyphs(font, codes) matches Ok(glyphs) ==> glyphs.len() <= codes.len(),
        decreases codes.len(),
    {
        if codes.len() > 0 {
            self.lemma_glyphs_len(font, codes.drop_last());
        }
    }

    /// Once a lookup has failed, more codes behind it change nothing.
    pub proof fn lemma_failure_stays(self, font: CursorState, codes: Seq<u32>, upto: int)
        requires
            0 <= upto <= codes.len(),
            self.glyphs(font, codes.take(upto)) is Err,
        ensures
            self.glyphs(font, codes) == self.glyphs(font, codes.take(upto)),
        decreases codes.len(),
    {
        if upto == codes.len() {
            assert(codes.take(upto) =~= codes);
        } else {
            assert(codes.drop_last().take(upto) =~= codes.take(upto));
            self.lemma_failure_stays(font, codes.drop_last(), upto);
        }
    }
}

/// The segment table that a format 4 subtable holds from `at`, behind its
/// length and language fields: the doubled segment count, the end codes, one
/// reserved word, the start codes, the deltas and the range offsets.
pub open spec fn segments_at(bytes: Seq<u8>, at: int) -> SegmentTable {
    let count = u16_at(bytes, at + 4) / 2;
    SegmentTable {
        ends: u16s_at(bytes, at + 6, count as int),
        starts: u16s_at(bytes, at + 8 + 2 * count, count as int),
        deltas: u16s_at(bytes, at + 8 + 4 * count, count as int),
        range_offsets: u16s_at(bytes, at + 8 + 6 * count, count as int),
        base: at + 8 + 8 * count,
    }
}

/// What a format 4 subtable that is read from `start` makes of `text`.
///
/// The first six bytes (length, language, doubled segment count) are read as
/// one, and so are the arrays behind them: where either does not fit, the
/// failure is a `TruncatedInput` at its first byte.
pub open spec fn format4_glyphs(start: CursorState, text: Seq<char>) -> Result<Seq<u32>, FontError> {
    let arrays = start.advanced(6);
    if !start.fits(6) {
        Err(start.truncated())
    } else if !arrays.fits(8 * (u16_at(start.bytes, start.pos + 4) / 2) + 2) {
        Err(arrays.truncated())
    } else {
        segments_at(start.bytes, start.pos).glyphs(start, code_points(text))
    }
}

/// Where a cursor that stood at `start` is left by the decoding of a
/// format 4 subtable: behind the range offsets, or at what did not fit.
pub open spec fn format4_end(start: CursorState) -> int {
    let arrays = start.advanced(6);
    if !start.fits(6) {
        start.pos
    } else if !arrays.fits(8 * (u16_at(start.bytes, start.pos + 4) / 2) + 2) {
        arrays.pos
    } else {
        segments_at(start.bytes, start.pos).base
    }
}

/// Maps one code point that fits in 16 bits through the segments of a
/// format 4 subtable.
///
/// The four slices are the subtable's parallel arrays and
/// `glyph_id_array_offset` is the byte offset just behind the last of them.
/// Values of the glyph-index array are read through a view of the cursor's
/// buffer that is opened for the purpose, so the cursor stays where it is.
#[verifier::loop_isolation(false)]
pub fn map_character_to_glyph(
    codepoint: u16,
    end_counts: &[u16],
    start_counts: &[u16],
    id_deltas: &[u16],
    id_range_offsets: &[u16],
    glyph_id_array_offset: u64,
    cursor: &ByteCursor,
) -> (result: Result<Option<u32>, FontError>)
    requires
        end_counts@.len() == start_counts@.len(),
        id_deltas@.len() == start_counts@.len(),
        id_range_offsets@.len() == start_counts@.len(),
    ensures
        result == (SegmentTable {
            ends: end_counts@,
            starts: start_counts@,
            deltas: id_deltas@,
            range_offsets: id_range_offsets@,
            base: glyph_id_array_offset as int,
        }).glyph(cursor@, codepoint as u32),
{
    let ghost segments = SegmentTable {
        ends: end_counts@,
        starts: start_counts@,
        deltas: id_deltas@,
        range_offsets: id_range_offsets@,
        base: glyph_id_array_offset as int,
    };
    let mut i: usize = 0;
    while i < start_counts.len()
        invariant
            i <= start_counts@.len(),
            segments.first_cover(codepoint as u32, 0) == segments.first_cover(
                codepoint as u32,
                i as int,
            ),
        decreases start_counts@.len() - i,
    {
        let start = start_counts[i];
        if start <= codepoint && codepoint <= end_counts[i] {
            let delta = id_deltas[i];
            let range_offset = id_range_offsets[i];
            if range_offset == 0 {
                return Ok(Some((codepoint as u32 + delta as u32) % 65536));
            }
            let target: u128 = glyph_id_array_offset as u128 + 2 * (i as u128) + range_offset as u128
                + 2 * ((codepoint - start) as u128);
            if target > cursor.len() as u128 {
                let offset: u64 = if target > u64::MAX as u128 {
                    u64::MAX
                } else {
                    target as u64
                };
                return Err(FontError { kind: ErrorKind::InvalidOffset, table: cursor.table(), offset });
            }
            let mut view = cursor.reopen();
            view.seek_absolute(target as u64)?;
            let raw = view.read_u16()?;
            if raw == 0 {
                return Ok(Some(0));
            }
            return Ok(Some((raw as u32 + delta as u32) % 65536));
        }
        i = i + 1;
    }
    Ok(None)
}

/// Decodes a format 4 subtable from the cursor and maps `input_string`
/// through it.
///
/// The cursor is left behind the range offsets, where the glyph-index array
/// begins, also where a lookup in that array fails; where the subtable
/// itself does not fit, it is left at what did not fit.
#[verifier::loop_isolation(false)]
pub fn parse_format4(cursor: &mut ByteCursor, input_string: &str) -> (result: Result<
    Vec<u32>,
    FontError,
>)
    ensures
        yields(result, format4_glyphs(old(cursor)@, input_string@)),
        final(cursor)@ == old(cursor)@.at(format4_end(old(cursor)@)),
{
    let ghost start = cursor@;
    cursor.require(6)?;
    let _length = cursor.read_u16()?;
    let _language = cursor.read_u16()?;
    let seg_count_x2 = cursor.read_u16()?;
    let seg_count: usize = (seg_count_x2 / 2) as usize;
    cursor.require(8 * seg_count + 2)?;
    let end_counts = cursor.read_u16_array(seg_count)?;
    let _reserved_pad = cursor.read_u16()?;
    let start_counts = cursor.read_u16_array(seg_count)?;
    let id_deltas = cursor.read_u16_array(seg_count)?;
    let id_range_offsets = cursor.read_u16_array(seg_count)?;
    let glyph_id_array_offset = cursor.position();
    let ghost segments = segments_at(start.bytes, start.pos);
    assert(segments == (SegmentTable {
        ends: end_counts@,
        starts: start_counts@,
        deltas: id_deltas@,
        range_offsets: id_range_offsets@,
        base: glyph_id_array_offset as int,
    }));

    let codes = points_of(input_string);
    let mut glyph_indices: Vec<u32> = Vec::new();
    let mut i: usize = 0;
    assert(codes@.take(0) =~= Seq::<u32>::empty());
    while i < codes.len()
        invariant
            i <= codes@.len(),
            segments.glyphs(start, codes@.take(i as int)) == Ok::<Seq<u32>, FontError>(
                glyph_indices@,
            ),
        decreases codes@.len() - i,
    {
        assert(codes@.take(i + 1).drop_last() =~= codes@.take(i as int));
        assert(segments.glyph(start, codes@[i as int]) == segments.glyph(cursor@, codes@[i as int]));
        let code = codes[i];
        if code <= 0xFFFF {
            match map_character_to_glyph(
                code as u16,
                end_counts.as_slice(),
                start_counts.as_slice(),
                id_deltas.as_slice(),
                id_range_offsets.as_slice(),
                glyph_id_array_offset,
                cursor,
            ) {
                Ok(Some(glyph_index)) => {
                    glyph_indices.push(glyph_index);
                },
                Ok(None) => {},
                Err(error) => {
                    proof {
                        segments.lemma_failure_stays(start, codes@, i + 1);
                    }
                    return Err(error);
                },
            }
        } else {
            proof {
                segments.lemma_code_above_16_bits(start, code);
            }
        }
        i = i + 1;
    }
    assert(codes@.take(i as int) =~= codes@);
    Ok(glyph_indices)
}

/// The glyph that a trimmed table gives to `code`: the entry at
/// `code - first` where the code lies in `first .. first + ids.len()`, and
/// none elsewhere.
pub open spec fn trimmed_glyph(first: u16, ids: Seq<u16>, code: u32) -> Option<u32> {
    if first <= code < first + ids.len() {
        Some(ids[code - first] as u32)
    } else {
        None
    }
}

/// `trimmed_glyph` as a function of the code alone.
pub open spec fn trimmed_lookup(first: u16, ids: Seq<u16>) -> spec_fn(u32) -> Option<u32> {
    |code: u32| trimmed_glyph(first, ids, code)
}

/// What a format 6 subtable that is read from `start` makes of `text`: the
/// glyphs of the characters that the table covers, in order.
///
/// The first code and the entry count are read as one, and so are the
/// entries: where either does not fit, the failure is a `TruncatedInput` at
/// its first byte.
pub open spec fn format6_glyphs(start: CursorState, text: Seq<char>) -> Result<Seq<u32>, FontError> {
    let first = u16_at(start.bytes, start.pos);
    let count = u16_at(start.bytes, start.pos + 2);
    let entries = start.advanced(4);
    if !start.fits(4) {
        Err(start.truncated())
    } else if !entries.fits(2 * count) {
        Err(entries.truncated())
    } else {
        Ok(
            code_points(text).filter_map(
                trimmed_lookup(first, u16s_at(start.bytes, entries.pos, count as int)),
            ),
        )
    }
}

/// Whether `glyph` is the entry of some code of `codes` that lies in the
/// range of the trimmed table.
pub open spec fn trimmed_from(first: u16, ids: Seq<u16>, codes: Seq<u32>, glyph: u32) -> bool {
    exists|k: int|
        0 <= k < codes.len() && first <= #[trigger] codes[k] < first + ids.len() && glyph
            == ids[codes[k] - first] as u32
}

/// Where a cursor that stood at `start` is left by the decoding of a
/// format 6 subtable: behind the last entry, or at what did not fit.
pub open spec fn format6_end(start: CursorState) -> int {
    let entries = start.advanced(4);
    let count = u16_at(start.bytes, start.pos + 2);
    if !start.fits(4) {
        start.pos
    } else if !entries.fits(2 * count) {
        entries.pos
    } else {
        entries.pos + 2 * count
    }
}

/// A trimmed table gives no more glyphs than it is given codes, and each
/// glyph it gives is the entry of a code of the input that lies in the
/// table's range.
pub proof fn lemma_trimmed_glyphs(first: u16, ids: Seq<u16>, codes: Seq<u32>)
    ensures
        ({
            let glyphs = codes.filter_map(trimmed_lookup(first, ids));
            &&& glyphs.len() <= codes.len()
            &&& forall|j: int|
                0 <= j < glyphs.len() ==> #[trigger] trimmed_from(first, ids, codes, glyphs[j])
        }),
    decreases codes.len(),
{
    let lookup = trimmed_lookup(first, ids);
    let glyphs = codes.filter_map(lookup);
    if codes.len() > 0 {
        let before = codes.drop_last();
        lemma_trimmed_glyphs(first, ids, before);
        assert forall|j: int| 0 <= j < glyphs.len() implies #[trigger] trimmed_from(
            first,
            ids,
            codes,
            glyphs[j],
        ) by {
            if j < before.filter_map(lookup).len() {
                assert(trimmed_from(first, ids, before, before.filter_map(lookup)[j]));
                let k = choose|k: int|
                    0 <= k < before.len() && first <= #[trigger] before[k] < first + ids.len()
                        && glyphs[j] == ids[before[k] - first] as u32;
                assert(codes[k] == before[k]);
            } else {
                assert(codes[codes.len() - 1] == codes.last());
            }
        }
    }
}

/// Decodes a format 6 subtable from the cursor and maps `input_string`
/// through it. A character outside the table's range is left out.
///
/// The cursor is left behind the last entry, or at what did not fit.
#[verifier::loop_isolation(false)]
pub fn parse_format6(cursor: &mut ByteCursor, input_string: &str) -> (result: Result<
    Vec<u32>,
    FontError,
>)
    ensures
        yields(result, format6_glyphs(old(cursor)@, input_string@)),
        final(cursor)@ == old(cursor)@.at(format6_end(old(cursor)@)),
{
    cursor.require(4)?;
    let first_code = cursor.read_u16()?;
    let entry_count = cursor.read_u16()?;
    let glyph_id_array = cursor.read_u16_array(entry_count as usize)?;
    let ghost lookup = trimmed_lookup(first_code, glyph_id_array@);

    let codes = points_of(input_string);
    let mut glyph_indices: Vec<u32> = Vec::new();
    let mut i: usize = 0;
    assert(codes@.take(0) =~= Seq::<u32>::empty());
    while i < codes.len()
        invariant
            i <= codes@.len(),
            glyph_indices@ == codes@.take(i as int).filter_map(lookup),
        decreases codes@.len() - i,
    {
        let codepoint = codes[i];
        proof {
            codes@.lemma_filter_map_take_succ(lookup, i as int);
        }
        if codepoint >= first_code as u32 && codepoint < first_code as u32 + entry_count as u32 {
            let index = (codepoint - first_code as u32) as usize;
            glyph_indices.push(glyph_id_array[index] as u32);
        }
        i = i + 1;
    }
    assert(codes@.take(i as int) =~= codes@);
    Ok(glyph_indices)
}

/// What a format 0 subtable that is read from `start` makes of `text`: for
/// each character the entry of the 256-byte table at the low byte of the
/// character's code point, also where the code point is above 255.
///
/// The length and language fields are read as one, and so is the table:
/// where either does not fit, the failure is a `TruncatedInput` at its first
/// byte.
pub open spec fn format0_glyphs(start: CursorState, text: Seq<char>) -> Result<Seq<u32>, FontError> {
    let table = start.advanced(4);
    if !start.fits(4) {
        Err(start.truncated())
    } else if !table.fits(256) {
        Err(table.truncated())
    } else {
        Ok(Seq::new(text.len(), |i: int| start.bytes[table.pos + (text[i] as u32) % 256] as u32))
    }
}

/// Where a cursor that stood at `start` is left by the decoding of a
/// format 0 subtable: behind the table, or at what did not fit.
pub open spec fn format0_end(start: CursorState) -> int {
    let table = start.advanced(4);
    if !start.fits(4) {
        start.pos
    } else if !table.fits(256) {
        table.pos
    } else {
        table.pos + 256
    }
}

/// Decodes a format 0 subtable from the cursor and maps `input_string`
/// through it. Every character gets a glyph.
///
/// The cursor is left behind the table, or at what did not fit.
#[verifier::loop_isolation(false)]
pub fn parse_format0(cursor: &mut ByteCursor, input_string: &str) -> (result: Result<
    Vec<u32>,
    FontError,
>)
    ensures
        yields(result, format0_glyphs(old(cursor)@, input_string@)),
        final(cursor)@ == old(cursor)@.at(format0_end(old(cursor)@)),
{
    cursor.require(4)?;
    let _length = cursor.read_u16()?;
    let _language = cursor.read_u16()?;
    let glyph_id_array = cursor.read_exact(256)?;

    let codes = points_of(input_string);
    let mut glyph_ids: Vec<u32> = Vec::new();
    let mut i: usize = 0;
    while i < codes.len()
        invariant
            i <= codes@.len(),
            glyph_ids@.len() == i,
            forall|j: int|
                0 <= j < i ==> glyph_ids@[j] == glyph_id_array@[(codes@[j] % 256) as int] as u32,
        decreases codes@.len() - i,
    {
        let codepoint = codes[i];
        assert(codepoint & 0xFF == codepoint % 256) by (bit_vector);
        let low_byte = (codepoint & 0xFF) as usize;
        glyph_ids.push(glyph_id_array[low_byte] as u32);
        i = i + 1;
    }
    assert(glyph_ids@ =~= format0_glyphs(old(cursor)@, input_string@)->Ok_0);
    Ok(glyph_ids)
}

} // verus!
