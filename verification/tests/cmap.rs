use ttf_metrics::cmap::parse_cmap;
use ttf_metrics::cmap_format::{
    map_character_to_glyph, parse_format0, parse_format4, parse_format6,
};
use ttf_metrics::cursor::ByteCursor;
use ttf_metrics::error::{ErrorKind, FontError, Table};
use ttf_metrics::text::points_of;

fn cmap_error(kind: ErrorKind, offset: u64) -> FontError {
    FontError { kind, table: Table::Cmap, offset }
}

fn push_u16(bytes: &mut Vec<u8>, value: u16) {
    bytes.push((value >> 8) as u8);
    bytes.push((value & 0xFF) as u8);
}

fn push_u32(bytes: &mut Vec<u8>, value: u32) {
    push_u16(bytes, (value >> 16) as u16);
    push_u16(bytes, (value & 0xFFFF) as u16);
}

/// The body of a format 0 subtable, without the format selector: entry `i`
/// of the table is `255 - i`.
fn format0_body() -> Vec<u8> {
    let mut bytes = Vec::new();
    push_u16(&mut bytes, 262);
    push_u16(&mut bytes, 0);
    for i in 0..256u32 {
        bytes.push((255 - i) as u8);
    }
    bytes
}

/// The body of a format 6 subtable, without the format selector.
fn format6_body(first: u16, glyphs: &[u16]) -> Vec<u8> {
    let mut bytes = Vec::new();
    push_u16(&mut bytes, first);
    push_u16(&mut bytes, glyphs.len() as u16);
    for glyph in glyphs {
        push_u16(&mut bytes, *glyph);
    }
    bytes
}

/// The body of a format 4 subtable, without the format selector, followed
/// by `glyph_array`. A segment is (start, end, delta, range offset).
fn format4_body(segments: &[(u16, u16, u16, u16)], glyph_array: &[u16]) -> Vec<u8> {
    let mut bytes = Vec::new();
    push_u16(&mut bytes, 0);
    push_u16(&mut bytes, 0);
    push_u16(&mut bytes, (segments.len() * 2) as u16);
    for segment in segments {
        push_u16(&mut bytes, segment.1);
    }
    push_u16(&mut bytes, 0);
    for segment in segments {
        push_u16(&mut bytes, segment.0);
    }
    for segment in segments {
        push_u16(&mut bytes, segment.2);
    }
    for segment in segments {
        push_u16(&mut bytes, segment.3);
    }
    for glyph in glyph_array {
        push_u16(&mut bytes, *glyph);
    }
    bytes
}

/// A buffer with `lead` bytes of padding and then a character map with the
/// given encoding records (platform, encoding) that all point at one
/// subtable with the given format selector and body.
fn cmap_table(lead: usize, records: &[(u16, u16)], format: u16, body: &[u8]) -> Vec<u8> {
    let mut bytes = vec![0xEEu8; lead];
    push_u16(&mut bytes, 0);
    push_u16(&mut bytes, records.len() as u16);
    let subtable = 4 + 8 * records.len() as u32;
    for record in records {
        push_u16(&mut bytes, record.0);
        push_u16(&mut bytes, record.1);
        push_u32(&mut bytes, subtable);
    }
    push_u16(&mut bytes, format);
    bytes.extend_from_slice(body);
    bytes
}

#[test]
fn the_code_points_of_a_text_are_whole() {
    assert_eq!(points_of("He\u{FFFF}"), vec![0x48u32, 0x65, 0xFFFF]);
    assert_eq!(points_of("\u{10000}\u{1F600}\u{10FFFF}"), vec![0x10000u32, 0x1F600, 0x10FFFF]);
    assert_eq!(points_of(""), Vec::<u32>::new());
}

#[test]
fn format6_leaves_out_code_points_above_16_bits() {
    let body = [0u8, 0x41, 0, 2, 0, 5, 0, 7];
    let mut cursor = ByteCursor::open(&body, Table::Cmap);
    assert_eq!(parse_format6(&mut cursor, "\u{10041}"), Ok(vec![]));
    let mut cursor = ByteCursor::open(&body, Table::Cmap);
    assert_eq!(
        parse_format6(&mut cursor, "A\u{10041}B\u{10042}\u{100041}"),
        Ok(vec![5, 7])
    );
}

#[test]
fn format4_leaves_out_code_points_above_16_bits() {
    let segments = [
        (0x48, 0x48, 1u16.wrapping_sub(0x48), 0),
        (0x65, 0x65, 2u16.wrapping_sub(0x65), 0),
        (0xFFFF, 0xFFFF, 1, 0),
    ];
    let body = format4_body(&segments, &[]);
    let mut cursor = ByteCursor::open(&body, Table::Cmap);
    assert_eq!(parse_format4(&mut cursor, "\u{10048}"), Ok(vec![]));
    let mut cursor = ByteCursor::open(&body, Table::Cmap);
    assert_eq!(
        parse_format4(&mut cursor, "H\u{10048}e\u{10065}\u{1FFFF}\u{10FFFF}"),
        Ok(vec![1, 2])
    );
    let data = cmap_table(6, &[(3, 1)], 4, &body);
    assert_eq!(parse_cmap(&data, 6, "\u{10048}"), Ok(vec![]));
    assert_eq!(parse_cmap(&data, 6, "\u{10048}H"), Ok(vec![1]));
}

#[test]
fn format4_range_offset_lookup_is_not_made_for_code_points_above_16_bits() {
    // 'a' is looked up outside the buffer and fails; U+10061 is left out
    // before anything is looked up.
    let segments = [(0x61, 0x61, 0, 400)];
    let body = format4_body(&segments, &[]);
    let mut cursor = ByteCursor::open(&body, Table::Cmap);
    assert_eq!(parse_format4(&mut cursor, "\u{10061}"), Ok(vec![]));
    let mut cursor = ByteCursor::open(&body, Table::Cmap);
    assert_eq!(
        parse_format4(&mut cursor, "\u{10061}a"),
        Err(cmap_error(ErrorKind::InvalidOffset, 16 + 400))
    );
}

#[test]
fn format0_maps_every_character_by_its_low_byte() {
    let body = format0_body();
    let mut cursor = ByteCursor::open(&body, Table::Cmap);
    let glyphs = parse_format0(&mut cursor, "A\u{0}\u{FF}").unwrap();
    assert_eq!(glyphs, vec![255 - 0x41, 255, 0]);
    assert_eq!(cursor.position(), 260);
}

#[test]
fn format0_aliases_code_points_above_255() {
    let body = format0_body();
    let mut cursor = ByteCursor::open(&body, Table::Cmap);
    // U+0141, U+4E41 and U+1F641 all end in the byte 0x41.
    let glyphs = parse_format0(&mut cursor, "A\u{141}\u{4E41}\u{1F641}").unwrap();
    assert_eq!(glyphs, vec![255 - 0x41; 4]);
}

#[test]
fn format0_of_an_empty_text_is_empty() {
    let body = format0_body();
    let mut cursor = ByteCursor::open(&body, Table::Cmap);
    assert_eq!(parse_format0(&mut cursor, ""), Ok(vec![]));
}

#[test]
fn format0_needs_the_whole_table() {
    let body = format0_body();
    let mut cursor = ByteCursor::open(&body[..259], Table::Cmap);
    assert_eq!(
        parse_format0(&mut cursor, "A"),
        Err(cmap_error(ErrorKind::TruncatedInput, 4))
    );
    assert_eq!(cursor.position(), 4);
    let mut cursor = ByteCursor::open(&body[..3], Table::Cmap);
    assert_eq!(
        parse_format0(&mut cursor, "A"),
        Err(cmap_error(ErrorKind::TruncatedInput, 0))
    );
    assert_eq!(cursor.position(), 0);
}

#[test]
fn a_subtable_is_decoded_from_where_the_cursor_stands() {
    let mut data = vec![0xEEu8; 7];
    data.extend_from_slice(&format0_body());
    let mut cursor = ByteCursor::open(&data, Table::Cmap);
    assert_eq!(cursor.seek_absolute(7), Ok(()));
    assert_eq!(parse_format0(&mut cursor, "\u{2}"), Ok(vec![253]));
    assert_eq!(cursor.position(), 267);

    let mut data = vec![0xEEu8; 5];
    data.extend_from_slice(&format6_body(0x30, &[3, 4]));
    let mut cursor = ByteCursor::open(&data, Table::Kern);
    assert_eq!(cursor.seek_absolute(5), Ok(()));
    assert_eq!(parse_format6(&mut cursor, "01"), Ok(vec![3, 4]));
    assert_eq!(cursor.position(), 13);
    // the failures name the table of the cursor
    assert_eq!(cursor.seek_absolute(7), Ok(()));
    assert_eq!(
        parse_format6(&mut cursor, "01"),
        Err(FontError { kind: ErrorKind::TruncatedInput, table: Table::Kern, offset: 11 })
    );
    assert_eq!(cursor.position(), 11);

    // the lookups of format 4 are counted from the start of the buffer
    let mut data = vec![0xEEu8; 3];
    data.extend_from_slice(&format4_body(&[(0x61, 0x62, 1, 2)], &[40, 50]));
    let mut cursor = ByteCursor::open(&data, Table::Cmap);
    assert_eq!(cursor.seek_absolute(3), Ok(()));
    assert_eq!(parse_format4(&mut cursor, "a"), Ok(vec![51]));
    assert_eq!(cursor.position(), 3 + 16);
}

#[test]
fn format6_maps_the_codes_in_its_range_and_skips_the_others() {
    let body = format6_body(0x41, &[10, 11, 12]);
    let mut cursor = ByteCursor::open(&body, Table::Cmap);
    let glyphs = parse_format6(&mut cursor, "@ABCDA").unwrap();
    assert_eq!(glyphs, vec![10, 11, 12, 10]);
    assert_eq!(cursor.position(), 10);
}

#[test]
fn format6_result_is_never_longer_than_the_text() {
    let body = format6_body(0x61, &[1, 2, 3, 4, 5]);
    for text in ["", "a", "zzz", "abcde", "a-b-c", "\u{10061}", "e\u{10061}a"] {
        let mut cursor = ByteCursor::open(&body, Table::Cmap);
        let glyphs = parse_format6(&mut cursor, text).unwrap();
        let covered = text.chars().filter(|c| ('a'..='e').contains(c)).count();
        assert_eq!(glyphs.len(), covered);
        assert!(glyphs.len() <= text.chars().count());
        for glyph in &glyphs {
            assert!(1 <= *glyph && *glyph <= 5);
        }
    }
}

#[test]
fn format6_range_may_reach_past_the_last_code() {
    // first + count is above 0xFFFF: the sum must not wrap.
    let body = format6_body(0xFFFE, &[7, 8, 9]);
    let mut cursor = ByteCursor::open(&body, Table::Cmap);
    let glyphs = parse_format6(&mut cursor, "\u{FFFD}\u{FFFE}\u{FFFF}\u{0}").unwrap();
    assert_eq!(glyphs, vec![7, 8]);
    // U+10000 is the third code of the range
    let mut cursor = ByteCursor::open(&body, Table::Cmap);
    let glyphs = parse_format6(&mut cursor, "\u{FFFF}\u{10000}\u{10001}").unwrap();
    assert_eq!(glyphs, vec![8, 9]);
}

#[test]
fn format6_with_no_entries_maps_nothing() {
    let body = format6_body(0x41, &[]);
    let mut cursor = ByteCursor::open(&body, Table::Cmap);
    assert_eq!(parse_format6(&mut cursor, "AAA"), Ok(vec![]));
}

#[test]
fn format6_needs_all_its_entries() {
    let body = format6_body(0x41, &[10, 11, 12]);
    let mut cursor = ByteCursor::open(&body[..9], Table::Cmap);
    assert_eq!(
        parse_format6(&mut cursor, "A"),
        Err(cmap_error(ErrorKind::TruncatedInput, 4))
    );
    let mut cursor = ByteCursor::open(&body[..2], Table::Cmap);
    assert_eq!(
        parse_format6(&mut cursor, "A"),
        Err(cmap_error(ErrorKind::TruncatedInput, 0))
    );
}

#[test]
fn format4_adds_the_delta_modulo_65536() {
    let segments = [
        (0x41, 0x5A, 0xFFC3, 0), // 'A' -> 4, 'B' -> 5, ...
        (0x61, 0x7A, 100, 0),
        (0xFFFF, 0xFFFF, 1, 0),
    ];
    let body = format4_body(&segments, &[]);
    let mut cursor = ByteCursor::open(&body, Table::Cmap);
    let glyphs = parse_format4(&mut cursor, "AZa\u{FFFF}").unwrap();
    assert_eq!(glyphs, vec![4, 29, 0x61 + 100, 0]);
    assert_eq!(cursor.position(), 8 + 8 * 3);
}

#[test]
fn format4_leaves_out_codes_outside_all_segments() {
    let segments = [(0x41, 0x5A, 0xFFC3, 0), (0xFFFF, 0xFFFF, 1, 0)];
    let body = format4_body(&segments, &[]);
    let mut cursor = ByteCursor::open(&body, Table::Cmap);
    let glyphs = parse_format4(&mut cursor, "a@A[ B").unwrap();
    assert_eq!(glyphs, vec![4, 5]);
    let mut cursor = ByteCursor::open(&body, Table::Cmap);
    assert_eq!(parse_format4(&mut cursor, "abc"), Ok(vec![]));
}

#[test]
fn format4_looks_up_the_glyph_array_through_the_range_offset() {
    // One segment 'a'..'c' with range offset 4 at index 0: code c is looked
    // up at base + 0 + 4 + 2 * (c - 'a'), that is from the third word of the
    // glyph array on.
    let segments = [(0x61, 0x63, 3, 4), (0xFFFF, 0xFFFF, 1, 0)];
    let body = format4_body(&segments, &[0xAAAA, 0xBBBB, 20, 0, 0xFFFE]);
    let mut cursor = ByteCursor::open(&body, Table::Cmap);
    let glyphs = parse_format4(&mut cursor, "abc").unwrap();
    // 20 + 3; the missing glyph as it is; (0xFFFE + 3) mod 65536.
    assert_eq!(glyphs, vec![23, 0, 1]);
    assert_eq!(cursor.position(), 8 + 8 * 2);
}

#[test]
fn format4_counts_the_segment_index_into_the_lookup() {
    // The second segment (index 1) has range offset 2: code 'x' is looked up
    // at base + 2 * 1 + 2 + 0, the third word of the glyph array.
    let segments = [(0x41, 0x41, 0, 0), (0x78, 0x79, 0, 2), (0xFFFF, 0xFFFF, 1, 0)];
    let body = format4_body(&segments, &[1, 2, 3, 4]);
    let mut cursor = ByteCursor::open(&body, Table::Cmap);
    assert_eq!(parse_format4(&mut cursor, "xy"), Ok(vec![3, 4]));
}

#[test]
fn format4_first_segment_in_stored_order_wins() {
    let segments = [(0x41, 0x5A, 1, 0), (0x41, 0x41, 1000, 0)];
    let body = format4_body(&segments, &[]);
    let mut cursor = ByteCursor::open(&body, Table::Cmap);
    assert_eq!(parse_format4(&mut cursor, "A"), Ok(vec![0x42]));
}

#[test]
fn format4_lookup_outside_the_buffer_fails() {
    let segments = [(0x61, 0x63, 0, 4)];
    // base is 16; 'a' is looked up at 20, 'b' at 22, 'c' at 24.
    let body = format4_body(&segments, &[0, 0, 5]);
    assert_eq!(body.len(), 22);
    let mut cursor = ByteCursor::open(&body, Table::Cmap);
    assert_eq!(parse_format4(&mut cursor, "a"), Ok(vec![5]));
    let mut cursor = ByteCursor::open(&body, Table::Cmap);
    assert_eq!(
        parse_format4(&mut cursor, "ab"),
        Err(cmap_error(ErrorKind::TruncatedInput, 22))
    );
    let mut cursor = ByteCursor::open(&body, Table::Cmap);
    assert_eq!(
        parse_format4(&mut cursor, "xcab"),
        Err(cmap_error(ErrorKind::InvalidOffset, 24))
    );
    assert_eq!(cursor.position(), 16);
    let mut cursor = ByteCursor::open(&body[..21], Table::Cmap);
    assert_eq!(
        parse_format4(&mut cursor, "a"),
        Err(cmap_error(ErrorKind::TruncatedInput, 20))
    );
}

#[test]
fn format4_needs_all_its_arrays() {
    let segments = [(0x41, 0x5A, 1, 0), (0xFFFF, 0xFFFF, 1, 0)];
    let body = format4_body(&segments, &[]);
    assert_eq!(body.len(), 24);
    let mut cursor = ByteCursor::open(&body[..23], Table::Cmap);
    assert_eq!(
        parse_format4(&mut cursor, "A"),
        Err(cmap_error(ErrorKind::TruncatedInput, 6))
    );
    let mut cursor = ByteCursor::open(&body[..5], Table::Cmap);
    assert_eq!(
        parse_format4(&mut cursor, "A"),
        Err(cmap_error(ErrorKind::TruncatedInput, 0))
    );
}

#[test]
fn format4_with_no_segments_maps_nothing() {
    let body = format4_body(&[], &[]);
    let mut cursor = ByteCursor::open(&body, Table::Cmap);
    assert_eq!(parse_format4(&mut cursor, "ABC"), Ok(vec![]));
    assert_eq!(cursor.position(), 8);
}

#[test]
fn one_code_is_mapped_through_the_segments() {
    let data = [0u8, 0, 0, 0, 0x12, 0x34, 0, 0];
    let cursor = ByteCursor::open(&data, Table::Cmap);
    let ends = [0x5Au16, 0x7A];
    let starts = [0x41u16, 0x61];
    let deltas = [0xFFFFu16, 2];
    let offsets = [0u16, 2];
    let map = |code: u16| map_character_to_glyph(code, &ends, &starts, &deltas, &offsets, 0, &cursor);
    assert_eq!(map(0x41), Ok(Some(0x40)));
    assert_eq!(map(0x40), Ok(None));
    assert_eq!(map(0x7B), Ok(None));
    // 0 + 2 * 1 + 2 + 2 * 0 = 4
    assert_eq!(map(0x61), Ok(Some(0x1236)));
    // 0 + 2 * 1 + 2 + 2 * 1 = 6: the missing glyph
    assert_eq!(map(0x62), Ok(Some(0)));
    assert_eq!(map(0x63), Err(cmap_error(ErrorKind::TruncatedInput, 8)));
    assert_eq!(map(0x64), Err(cmap_error(ErrorKind::InvalidOffset, 10)));
    assert_eq!(cursor.position(), 0);
}

#[test]
fn a_lookup_position_beyond_every_offset_is_reported_at_the_largest() {
    let data = [0u8; 4];
    let cursor = ByteCursor::open(&data, Table::Cmap);
    let result = map_character_to_glyph(5, &[9], &[1], &[0], &[2], u64::MAX, &cursor);
    assert_eq!(result, Err(cmap_error(ErrorKind::InvalidOffset, u64::MAX)));
}

#[test]
fn the_windows_unicode_subtable_is_chosen() {
    let body = format6_body(0x41, &[10, 11, 12]);
    let data = cmap_table(3, &[(0, 3), (3, 1), (3, 10)], 6, &body);
    assert_eq!(parse_cmap(&data, 3, "ABCD"), Ok(vec![10, 11, 12]));
}

#[test]
fn the_first_of_two_matching_records_is_chosen() {
    let mut data = vec![0u8; 2];
    push_u16(&mut data, 0);
    push_u16(&mut data, 2);
    push_u16(&mut data, 3);
    push_u16(&mut data, 1);
    push_u32(&mut data, 20);
    push_u16(&mut data, 3);
    push_u16(&mut data, 1);
    push_u32(&mut data, 28);
    // at 2 + 20
    push_u16(&mut data, 6);
    data.extend_from_slice(&format6_body(0x41, &[1]));
    // at 2 + 28
    push_u16(&mut data, 6);
    data.extend_from_slice(&format6_body(0x41, &[2]));
    assert_eq!(parse_cmap(&data, 2, "A"), Ok(vec![1]));
}

#[test]
fn each_supported_format_is_dispatched() {
    let data = cmap_table(1, &[(3, 1)], 0, &format0_body());
    assert_eq!(parse_cmap(&data, 1, "\u{1}"), Ok(vec![254]));
    let segments = [(0x41, 0x5A, 1, 0)];
    let data = cmap_table(1, &[(3, 1)], 4, &format4_body(&segments, &[]));
    assert_eq!(parse_cmap(&data, 1, "A"), Ok(vec![0x42]));
    let data = cmap_table(1, &[(3, 1)], 6, &format6_body(0x41, &[77]));
    assert_eq!(parse_cmap(&data, 1, "A"), Ok(vec![77]));
}

#[test]
fn a_font_without_the_windows_unicode_subtable_maps_nothing() {
    let body = format6_body(0x41, &[10, 11, 12]);
    let data = cmap_table(8, &[(0, 3), (1, 0), (3, 0), (1, 3)], 6, &body);
    assert_eq!(parse_cmap(&data, 8, "ABC"), Ok(vec![]));
    let data = cmap_table(8, &[], 6, &body);
    assert_eq!(parse_cmap(&data, 8, "ABC"), Ok(vec![]));
}

#[test]
fn an_unsupported_format_maps_nothing() {
    for format in [1u16, 2, 5, 12, 13, 14, 0xFFFF] {
        let data = cmap_table(4, &[(3, 1)], format, &format0_body());
        assert_eq!(parse_cmap(&data, 4, "ABC"), Ok(vec![]));
    }
}

#[test]
fn a_font_without_a_character_map_is_an_invalid_font_table() {
    let data = cmap_table(0, &[(3, 1)], 6, &format6_body(0x41, &[1]));
    assert_eq!(
        parse_cmap(&data, 0, "A"),
        Err(cmap_error(ErrorKind::InvalidFontTable, 0))
    );
}

#[test]
fn a_character_map_outside_the_buffer_is_an_invalid_offset() {
    let data = [0u8; 10];
    assert_eq!(
        parse_cmap(&data, 11, "A"),
        Err(cmap_error(ErrorKind::InvalidOffset, 11))
    );
    assert_eq!(
        parse_cmap(&data, u32::MAX, "A"),
        Err(cmap_error(ErrorKind::InvalidOffset, u32::MAX as u64))
    );
}

#[test]
fn a_cut_character_map_is_truncated_input() {
    let data = cmap_table(2, &[(0, 0), (3, 1)], 6, &format6_body(0x41, &[1]));
    // header
    assert_eq!(
        parse_cmap(&data[..5], 2, "A"),
        Err(cmap_error(ErrorKind::TruncatedInput, 2))
    );
    assert_eq!(
        parse_cmap(&data[..2], 2, "A"),
        Err(cmap_error(ErrorKind::TruncatedInput, 2))
    );
    // records: all of them are read before one is chosen
    assert_eq!(
        parse_cmap(&data[..21], 2, "A"),
        Err(cmap_error(ErrorKind::TruncatedInput, 6))
    );
    // format selector
    assert_eq!(
        parse_cmap(&data[..23], 2, "A"),
        Err(cmap_error(ErrorKind::TruncatedInput, 22))
    );
    // subtable body
    assert_eq!(
        parse_cmap(&data[..27], 2, "A"),
        Err(cmap_error(ErrorKind::TruncatedInput, 24))
    );
    assert_eq!(parse_cmap(&data, 2, "A"), Ok(vec![1]));
}

#[test]
fn a_subtable_outside_the_buffer_is_an_invalid_offset() {
    let mut data = vec![0u8; 1];
    push_u16(&mut data, 0);
    push_u16(&mut data, 1);
    push_u16(&mut data, 3);
    push_u16(&mut data, 1);
    push_u32(&mut data, u32::MAX);
    assert_eq!(
        parse_cmap(&data, 1, "A"),
        Err(cmap_error(ErrorKind::InvalidOffset, 1 + u32::MAX as u64))
    );
}

#[test]
fn decoding_again_gives_the_same_glyphs() {
    let segments = [(0x41, 0x5A, 0xFFC3, 0), (0x61, 0x63, 3, 4), (0xFFFF, 0xFFFF, 1, 0)];
    let body = format4_body(&segments, &[0, 0, 20, 0, 9, 30]);
    let data = cmap_table(5, &[(3, 1)], 4, &body);
    let first = parse_cmap(&data, 5, "Hab c!");
    let second = parse_cmap(&data, 5, "Hab c!");
    assert_eq!(first, second);
    assert_eq!(first, Ok(vec![11, 0, 12, 33]));
    let cut = &data[..data.len() - 5];
    assert_eq!(parse_cmap(cut, 5, "Habc"), parse_cmap(cut, 5, "Habc"));
    assert!(parse_cmap(cut, 5, "Habc").is_err());
}
