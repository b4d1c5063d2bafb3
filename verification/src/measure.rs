//! The whole measurement: everything about a text in a font that its
//! width is computed from, in font units.

use crate::cmap::{cmap_glyphs, lemma_cmap_glyphs_len, parse_cmap};
use crate::cursor::failure;
use crate::directory::{locate_tables, table_offsets, TableOffsets};
use crate::error::{ErrorKind, FontError, Table};
use crate::glyf::{cap_height, get_cap_height};
use crate::head::{metric_count, parse_head, parse_hhea, units_per_em};
use crate::hmtx::{advance_total, try_parse_hmtx};
use crate::kern::{fits_i32, kern_pairs, kerning_sum, try_parse_kern_table};
use vstd::pervasive::unreached;
use vstd::prelude::*;

verus! {

/// The abstract value of a measurement, with the glyphs as a sequence.
pub struct Measurement {
    pub capital_height_units: i32,
    pub units_per_em: u16,
    pub glyph_indices: Seq<u32>,
    pub total_advance_units: u32,
    pub total_kerning_units: i32,
}

/// What a font says about a text, in font units. The width of the text at a
/// given capital height is the sum of `total_advance_units` and
/// `total_kerning_units`, times that height, divided by
/// `capital_height_units`, which is never zero.
#[derive(Clone, Debug, PartialEq, Eq)]
pub struct TextMeasurement {
    /// The height of the capital letter H.
    pub capital_height_units: i32,
    pub units_per_em: u16,
    /// The glyphs of the characters that the font covers, in order.
    pub glyph_indices: Vec<u32>,
    /// The sum of the advance widths of the glyphs.
    pub total_advance_units: u32,
    /// The sum of the kerning adjustments between neighbours.
    pub total_kerning_units: i32,
}

impl View for TextMeasurement {
    type V = Measurement;

    open spec fn view(&self) -> Measurement {
        Measurement {
            capital_height_units: self.capital_height_units,
            units_per_em: self.units_per_em,
            glyph_indices: self.glyph_indices@,
            total_advance_units: self.total_advance_units,
            total_kerning_units: self.total_kerning_units,
        }
    }
}

impl TextMeasurement {
    /// The width of the text in font units: advances plus kerning.
    pub fn total_units(&self) -> (total: i64)
        ensures
            total == self.total_advance_units + self.total_kerning_units,
    {
        self.total_advance_units as i64 + self.total_kerning_units as i64
    }
}

/// What a font says about a text before the sums are cut to 32 bits.
pub struct Totals {
    pub capital_height_units: i32,
    pub units_per_em: u16,
    pub glyph_indices: Seq<u32>,
    pub advance: int,
    pub kerning: int,
}

impl Totals {
    /// Whether the two sums fit in the 32 bits that a measurement has for
    /// each.
    pub open spec fn fit(self) -> bool {
        self.advance <= u32::MAX && fits_i32(self.kerning)
    }

    /// The measurement with these sums, where they fit.
    pub open spec fn measurement(self) -> Measurement {
        Measurement {
            capital_height_units: self.capital_height_units,
            units_per_em: self.units_per_em,
            glyph_indices: self.glyph_indices,
            total_advance_units: self.advance as u32,
            total_kerning_units: self.kerning as i32,
        }
    }
}

/// What the font `bytes` whose tables lie at `offsets` says about `text`.
///
/// The parts are taken in this order, and the first that fails decides: the
/// units per em, the glyphs of the text, the count of horizontal metrics, the
/// advances, the kerning, the capital height. A capital height of zero, by
/// which no width can be scaled, is a `DivisionByZero` at the `glyf` table.
pub open spec fn totals(bytes: Seq<u8>, offsets: TableOffsets, text: Seq<char>) -> Result<
    Totals,
    FontError,
> {
    match units_per_em(bytes, offsets.head) {
        Err(error) => Err(error),
        Ok(units_per_em) => match cmap_glyphs(bytes, offsets.cmap, text) {
            Err(error) => Err(error),
            Ok(glyph_indices) => match metric_count(bytes, offsets.hhea) {
                Err(error) => Err(error),
                Ok(num_h_metrics) => match advance_total(
                    bytes,
                    glyph_indices,
                    num_h_metrics,
                    offsets.hmtx,
                    offsets.maxp,
                ) {
                    Err(error) => Err(error),
                    Ok(advance) => match kerning_sum(bytes, glyph_indices, offsets.kern) {
                        Err(error) => Err(error),
                        Ok(kerning) => match cap_height(
                            bytes,
                            offsets.cmap,
                            offsets.glyf,
                            offsets.loca,
                            offsets.head,
                        ) {
                            Err(error) => Err(error),
                            Ok(capital_height_units) => if capital_height_units == 0 {
                                Err(
                                    failure(
                                        ErrorKind::DivisionByZero,
                                        Table::Glyf,
                                        offsets.glyf as int,
                                    ),
                                )
                            } else {
                                Ok(
                                    Totals {
                                        capital_height_units,
                                        units_per_em,
                                        glyph_indices,
                                        advance,
                                        kerning,
                                    },
                                )
                            },
                        },
                    },
                },
            },
        },
    }
}

/// Whether the sums of a measurement fit, where the measurement succeeds.
pub open spec fn sums_fit(bytes: Seq<u8>, offsets: TableOffsets, text: Seq<char>) -> bool {
    totals(bytes, offsets, text) matches Ok(found) ==> found.fit()
}

/// The measurement of `text` in the font `bytes` whose tables lie at
/// `offsets`, where its sums fit.
pub open spec fn measurement(bytes: Seq<u8>, offsets: TableOffsets, text: Seq<char>) -> Result<
    Measurement,
    FontError,
> {
    match totals(bytes, offsets, text) {
        Ok(found) => Ok(found.measurement()),
        Err(error) => Err(error),
    }
}

/// The measurement of `text`, or nothing where it succeeds and one of its
/// sums does not fit in 32 bits.
pub open spec fn checked_measurement(
    bytes: Seq<u8>,
    offsets: TableOffsets,
    text: Seq<char>,
) -> Result<Option<Measurement>, FontError> {
    match totals(bytes, offsets, text) {
        Ok(found) => Ok(
            if found.fit() {
                Some(found.measurement())
            } else {
                None
            },
        ),
        Err(error) => Err(error),
    }
}

/// The measurement of `text` in the font `bytes`, whose tables are looked
/// up in its directory.
pub open spec fn font_measurement(bytes: Seq<u8>, text: Seq<char>) -> Result<Measurement, FontError> {
    match table_offsets(bytes) {
        Err(error) => Err(error),
        Ok(offsets) => measurement(bytes, offsets, text),
    }
}

/// Whether a computed measurement is the expected one, part by part, or the
/// expected failure.
pub open spec fn measures(
    result: Result<TextMeasurement, FontError>,
    expected: Result<Measurement, FontError>,
) -> bool {
    match expected {
        Ok(measurement) => result matches Ok(found) && found@ == measurement,
        Err(error) => result matches Err(found) && found == error,
    }
}

/// `measures` for a measurement that may have no result.
pub open spec fn measures_checked(
    result: Result<Option<TextMeasurement>, FontError>,
    expected: Result<Option<Measurement>, FontError>,
) -> bool {
    match expected {
        Ok(Some(measurement)) => result matches Ok(Some(found)) && found@ == measurement,
        Ok(None) => result matches Ok(None),
        Err(error) => result matches Err(found) && found == error,
    }
}

/// Two results that meet one expectation are equal in every part. What a
/// measurement is expected to give depends on the bytes, the offsets and
/// the text alone, so measuring again gives what it gave before.
pub proof fn lemma_measures_once(
    first: Result<TextMeasurement, FontError>,
    second: Result<TextMeasurement, FontError>,
    expected: Result<Measurement, FontError>,
)
    requires
        measures(first, expected),
        measures(second, expected),
    ensures
        match first {
            Ok(found) => second matches Ok(again) && again@ == found@,
            Err(error) => second matches Err(again) && again == error,
        },
{
}

/// The sums of a text of at most 65536 characters fit, whatever the font.
pub proof fn lemma_short_text_fits(bytes: Seq<u8>, offsets: TableOffsets, text: Seq<char>)
    requires
        text.len() <= 0x1_0000,
    ensures
        sums_fit(bytes, offsets, text),
{
    if totals(bytes, offsets, text) is Ok {
        lemma_cmap_glyphs_len(bytes, offsets.cmap, text);
        let glyphs = totals(bytes, offsets, text)->Ok_0.glyph_indices;
        let count = metric_count(bytes, offsets.hhea)->Ok_0;
        crate::hmtx::lemma_short_sequence_fits(bytes, glyphs, count, offsets.hmtx, offsets.maxp);
        crate::kern::lemma_short_sequence_fits(kern_pairs(bytes, offsets.kern)->Ok_0, glyphs);
    }
}

/// Measures `text` in the font `data` whose tables lie at `offsets`. Where
/// the measurement succeeds and one of its sums does not fit in 32 bits,
/// there is no result.
pub fn try_measure_text(data: &[u8], offsets: &TableOffsets, text: &str) -> (result: Result<
    Option<TextMeasurement>,
    FontError,
>)
    ensures
        measures_checked(result, checked_measurement(data@, *offsets, text@)),
{
    let units_per_em = parse_head(data, offsets.head)?;
    let glyph_indices = parse_cmap(data, offsets.cmap, text)?;
    let num_h_metrics = parse_hhea(data, offsets.hhea)?;
    let advance = try_parse_hmtx(
        data,
        glyph_indices.as_slice(),
        num_h_metrics,
        offsets.hmtx,
        offsets.maxp,
    )?;
    let kerning = try_parse_kern_table(data, glyph_indices.as_slice(), offsets.kern)?;
    let capital_height_units = get_cap_height(
        data,
        offsets.cmap,
        offsets.glyf,
        offsets.loca,
        offsets.head,
    )?;
    if capital_height_units == 0 {
        return Err(
            FontError {
                kind: ErrorKind::DivisionByZero,
                table: Table::Glyf,
                offset: offsets.glyf as u64,
            },
        );
    }
    match (advance, kerning) {
        (Some(total_advance_units), Some(total_kerning_units)) => Ok(
            Some(
                TextMeasurement {
                    capital_height_units,
                    units_per_em,
                    glyph_indices,
                    total_advance_units,
                    total_kerning_units,
                },
            ),
        ),
        _ => Ok(None),
    }
}

/// Measures `text` in the font `data` whose tables lie at `offsets`.
///
/// The sums must fit in 32 bits, which those of a text of at most 65536
/// characters always do.
pub fn measure_text(data: &[u8], offsets: &TableOffsets, text: &str) -> (result: Result<
    TextMeasurement,
    FontError,
>)
    requires
        sums_fit(data@, *offsets, text@),
    ensures
        measures(result, measurement(data@, *offsets, text@)),
{
    match try_measure_text(data, offsets, text) {
        Ok(Some(measured)) => Ok(measured),
        Ok(None) => unreached(),
        Err(error) => Err(error),
    }
}

/// Measures `text` in the font `data`, whose tables are looked up in its
/// directory.
///
/// The sums must fit in 32 bits, which those of a text of at most 65536
/// characters always do.
pub fn measure_font(data: &[u8], text: &str) -> (result: Result<TextMeasurement, FontError>)
    requires
        table_offsets(data@) matches Ok(offsets) ==> sums_fit(data@, offsets, text@),
    ensures
        measures(result, font_measurement(data@, text@)),
{
    let offsets = locate_tables(data)?;
    measure_text(data, &offsets, text)
}

} // verus!
