//! The table directory at the start of a font: which tables the font has,
//! and where.

use crate::cursor::{ByteCursor, CursorState};
use crate::endian::{u16_at, u32_at};
use crate::error::{FontError, Table};
use vstd::prelude::*;

verus! {

/// One record of the directory.
#[derive(Clone, Copy, Debug, PartialEq, Eq)]
pub struct TableRecord {
    /// The four characters that name the table.
    pub tag: [u8; 4],
    pub checksum: u32,
    /// Where the table begins, in bytes from the start of the font.
    pub offset: u32,
    pub length: u32,
}

/// Where each of the tables that a measurement reads begins. Zero stands
/// for a table that the font does not have.
#[derive(Clone, Copy, Debug, PartialEq, Eq, Structural)]
pub struct TableOffsets {
    pub cmap: u32,
    pub glyf: u32,
    pub loca: u32,
    pub head: u32,
    pub hmtx: u32,
    pub maxp: u32,
    pub hhea: u32,
    pub kern: u32,
}

/// Whether `record` is what the sixteen bytes from `at` hold: the tag, the
/// checksum, the offset and the length.
pub open spec fn is_record_at(record: TableRecord, bytes: Seq<u8>, at: int) -> bool {
    &&& record.tag@ == bytes.subrange(at, at + 4)
    &&& record.checksum == u32_at(bytes, at + 4)
    &&& record.offset == u32_at(bytes, at + 8)
    &&& record.length == u32_at(bytes, at + 12)
}

/// How many records the directory holds: the 16-bit value at byte 4 of the
/// header. The header's twelve bytes are read as one, and so are the
/// records behind it: where either does not fit, the failure is a
/// `TruncatedInput` at its first byte.
pub open spec fn record_count(bytes: Seq<u8>) -> Result<u16, FontError> {
    let start = CursorState { bytes, pos: 0, table: Table::Directory };
    let records = start.advanced(12);
    if !start.fits(12) {
        Err(start.truncated())
    } else if !records.fits(16 * u16_at(bytes, 4)) {
        Err(records.truncated())
    } else {
        Ok(u16_at(bytes, 4))
    }
}

/// Whether `records` are the records of the directory of `bytes`, in order.
pub open spec fn is_directory_of(records: Seq<TableRecord>, bytes: Seq<u8>) -> bool {
    &&& record_count(bytes) matches Ok(count)
    &&& records.len() == count
    &&& forall|i: int| 0 <= i < records.len() ==> is_record_at(#[trigger] records[i], bytes, 12 + 16 * i)
}

/// The offset of the first of `records` with the tag `tag`, and zero where
/// none has it.
pub open spec fn table_offset(tag: Seq<u8>, records: Seq<TableRecord>) -> u32
    decreases records.len(),
{
    if records.len() == 0 {
        0
    } else if records[0].tag@ == tag {
        records[0].offset
    } else {
        table_offset(tag, records.drop_first())
    }
}

/// The offset that the first of `count` directory records from `at` with
/// the tag `tag` gives, and zero where none has the tag.
pub open spec fn recorded_offset(bytes: Seq<u8>, tag: Seq<u8>, at: int, count: nat) -> u32
    decreases count,
{
    if count == 0 {
        0
    } else if bytes.subrange(at, at + 4) == tag {
        u32_at(bytes, at + 8)
    } else {
        recorded_offset(bytes, tag, at + 16, (count - 1) as nat)
    }
}

/// The offsets that the directory of `bytes` gives for the eight tables that
/// a measurement reads, each looked up by its tag.
pub open spec fn table_offsets(bytes: Seq<u8>) -> Result<TableOffsets, FontError> {
    match record_count(bytes) {
        Err(error) => Err(error),
        Ok(count) => Ok(
            TableOffsets {
                cmap: recorded_offset(bytes, seq![0x63u8, 0x6Du8, 0x61u8, 0x70u8], 12, count as nat),
                glyf: recorded_offset(bytes, seq![0x67u8, 0x6Cu8, 0x79u8, 0x66u8], 12, count as nat),
                loca: recorded_offset(bytes, seq![0x6Cu8, 0x6Fu8, 0x63u8, 0x61u8], 12, count as nat),
                head: recorded_offset(bytes, seq![0x68u8, 0x65u8, 0x61u8, 0x64u8], 12, count as nat),
                hmtx: recorded_offset(bytes, seq![0x68u8, 0x6Du8, 0x74u8, 0x78u8], 12, count as nat),
                maxp: recorded_offset(bytes, seq![0x6Du8, 0x61u8, 0x78u8, 0x70u8], 12, count as nat),
                hhea: recorded_offset(bytes, seq![0x68u8, 0x68u8, 0x65u8, 0x61u8], 12, count as nat),
                kern: recorded_offset(bytes, seq![0x6Bu8, 0x65u8, 0x72u8, 0x6Eu8], 12, count as nat),
            },
        ),
    }
}

/// A lookup in the records of a directory finds what the bytes of the
/// directory record for the tag.
pub proof fn lemma_lookup_in_directory(
    records: Seq<TableRecord>,
    bytes: Seq<u8>,
    tag: Seq<u8>,
    from: int,
)
    requires
        is_directory_of(records, bytes),
        0 <= from <= records.len(),
    ensures
        table_offset(tag, records.skip(from)) == recorded_offset(
            bytes,
            tag,
            12 + 16 * from,
            (records.len() - from) as nat,
        ),
    decreases records.len() - from,
{
    if from < records.len() {
        let rest = records.skip(from);
        assert(rest[0] == records[from]);
        assert(rest.drop_first() =~= records.skip(from + 1));
        lemma_lookup_in_directory(records, bytes, tag, from + 1);
    }
}

/// Reads the directory of the font in `data`.
#[verifier::loop_isolation(false)]
pub fn read_table_directory(data: &[u8]) -> (result: Result<Vec<TableRecord>, FontError>)
    ensures
        match record_count(data@) {
            Ok(count) => result matches Ok(records) && is_directory_of(records@, data@),
            Err(error) => result matches Err(found) && found == error,
        },
{
    let mut cursor = ByteCursor::open(data, Table::Directory);
    cursor.require(12)?;
    let _scaler_type = cursor.read_u32()?;
    let num_tables = cursor.read_u16()?;
    let _search_range = cursor.read_u16()?;
    let _entry_selector = cursor.read_u16()?;
    let _range_shift = cursor.read_u16()?;
    cursor.require(16 * num_tables as usize)?;

    let mut tables: Vec<TableRecord> = Vec::new();
    let mut i: u16 = 0;
    while i < num_tables
        invariant
            i <= num_tables,
            cursor@ == (CursorState { bytes: data@, pos: 12 + 16 * i, table: Table::Directory }),
            tables@.len() == i,
            forall|k: int| 0 <= k < i ==> is_record_at(#[trigger] tables@[k], data@, 12 + 16 * k),
        decreases num_tables - i,
    {
        let tag_bytes = cursor.read_exact(4)?;
        let tag = [tag_bytes[0], tag_bytes[1], tag_bytes[2], tag_bytes[3]];
        let checksum = cursor.read_u32()?;
        let offset = cursor.read_u32()?;
        let length = cursor.read_u32()?;
        assert(tag@ =~= tag_bytes@);
        tables.push(TableRecord { tag, checksum, offset, length });
        i = i + 1;
    }
    Ok(tables)
}

/// Looks up a table by its tag. The result is the offset of the first
/// record with that tag, and zero where the font has no such table.
pub fn find_table_offset(table_name: &[u8; 4], tables: &Vec<TableRecord>) -> (offset: u32)
    ensures
        offset == table_offset(table_name@, tables@),
{
    let mut i: usize = 0;
    assert(tables@.skip(0) =~= tables@);
    while i < tables.len()
        invariant
            i <= tables@.len(),
            table_offset(table_name@, tables@) == table_offset(table_name@, tables@.skip(i as int)),
        decreases tables@.len() - i,
    {
        let record = &tables[i];
        let ghost rest = tables@.skip(i as int);
        assert(rest[0] == tables@[i as int]);
        assert(rest.drop_first() =~= tables@.skip(i + 1));
        if record.tag[0] == table_name[0] && record.tag[1] == table_name[1] && record.tag[2]
            == table_name[2] && record.tag[3] == table_name[3] {
            assert(record.tag@ =~= table_name@);
            return record.offset;
        }
        assert(record.tag@ != table_name@);
        i = i + 1;
    }
    0
}

/// Reads the directory of the font in `data` and looks up the eight tables
/// that a measurement reads.
pub fn locate_tables(data: &[u8]) -> (result: Result<TableOffsets, FontError>)
    ensures
        result == table_offsets(data@),
{
    let tables = read_table_directory(data)?;
    let cmap_tag: [u8; 4] = [0x63, 0x6D, 0x61, 0x70];
    let glyf_tag: [u8; 4] = [0x67, 0x6C, 0x79, 0x66];
    let loca_tag: [u8; 4] = [0x6C, 0x6F, 0x63, 0x61];
    let head_tag: [u8; 4] = [0x68, 0x65, 0x61, 0x64];
    let hmtx_tag: [u8; 4] = [0x68, 0x6D, 0x74, 0x78];
    let maxp_tag: [u8; 4] = [0x6D, 0x61, 0x78, 0x70];
    let hhea_tag: [u8; 4] = [0x68, 0x68, 0x65, 0x61];
    let kern_tag: [u8; 4] = [0x6B, 0x65, 0x72, 0x6E];
    proof {
        assert(cmap_tag@ =~= seq![0x63u8, 0x6Du8, 0x61u8, 0x70u8]);
        assert(glyf_tag@ =~= seq![0x67u8, 0x6Cu8, 0x79u8, 0x66u8]);
        assert(loca_tag@ =~= seq![0x6Cu8, 0x6Fu8, 0x63u8, 0x61u8]);
        assert(head_tag@ =~= seq![0x68u8, 0x65u8, 0x61u8, 0x64u8]);
        assert(hmtx_tag@ =~= seq![0x68u8, 0x6Du8, 0x74u8, 0x78u8]);
        assert(maxp_tag@ =~= seq![0x6Du8, 0x61u8, 0x78u8, 0x70u8]);
        assert(hhea_tag@ =~= seq![0x68u8, 0x68u8, 0x65u8, 0x61u8]);
        assert(kern_tag@ =~= seq![0x6Bu8, 0x65u8, 0x72u8, 0x6Eu8]);
        assert(tables@.skip(0) =~= tables@);
        lemma_lookup_in_directory(tables@, data@, cmap_tag@, 0);
        lemma_lookup_in_directory(tables@, data@, glyf_tag@, 0);
        lemma_lookup_in_directory(tables@, data@, loca_tag@, 0);
        lemma_lookup_in_directory(tables@, data@, head_tag@, 0);
        lemma_lookup_in_directory(tables@, data@, hmtx_tag@, 0);
        lemma_lookup_in_directory(tables@, data@, maxp_tag@, 0);
        lemma_lookup_in_directory(tables@, data@, hhea_tag@, 0);
        lemma_lookup_in_directory(tables@, data@, kern_tag@, 0);
    }
    Ok(
        TableOffsets {
            cmap: find_table_offset(&cmap_tag, &tables),
            glyf: find_table_offset(&glyf_tag, &tables),
            loca: find_table_offset(&loca_tag, &tables),
            head: find_table_offset(&head_tag, &tables),
            hmtx: find_table_offset(&hmtx_tag, &tables),
            maxp: find_table_offset(&maxp_tag, &tables),
            hhea: find_table_offset(&hhea_tag, &tables),
            kern: find_table_offset(&kern_tag, &tables),
        },
    )
}

} // verus!
