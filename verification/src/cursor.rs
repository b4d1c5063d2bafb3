//! A read position over the bytes of a font.

use crate::endian::{be_i16, be_u16, be_u32, i16_at, u16_at, u32_at};
use crate::error::{ErrorKind, FontError, Table};
use vstd::prelude::*;
use vstd::slice::slice_subrange;

verus! {

/// The failure of the given kind, found in `table` at byte `offset`. An
/// offset that no `u64` holds is reported as the largest `u64`.
pub open spec fn failure(kind: ErrorKind, table: Table, offset: int) -> FontError {
    FontError {
        kind,
        table,
        offset: if offset <= u64::MAX {
            offset as u64
        } else {
            u64::MAX
        },
    }
}

/// The `count` unsigned 16-bit integers stored one after the other from `at`.
pub open spec fn u16s_at(data: Seq<u8>, at: int, count: int) -> Seq<u16> {
    Seq::new(count as nat, |i: int| u16_at(data, at + 2 * i))
}

/// The abstract state of a cursor: the bytes it reads, how many of them lie
/// before its position, and the table whose name its failures carry.
pub struct CursorState {
    pub bytes: Seq<u8>,
    pub pos: int,
    pub table: Table,
}

impl CursorState {
    /// Whether the position lies in the buffer or at its end. It does so for
    /// every cursor.
    pub open spec fn in_buffer(self) -> bool {
        0 <= self.pos <= self.bytes.len()
    }

    /// Whether `count` more bytes can be read.
    pub open spec fn fits(self, count: int) -> bool {
        self.pos + count <= self.bytes.len()
    }

    /// The same cursor at position `pos`.
    pub open spec fn at(self, pos: int) -> CursorState {
        CursorState { bytes: self.bytes, pos, table: self.table }
    }

    /// The same cursor `count` bytes further on.
    pub open spec fn advanced(self, count: int) -> CursorState {
        self.at(self.pos + count)
    }

    /// The failure of a read that begins at the position.
    pub open spec fn truncated(self) -> FontError {
        failure(ErrorKind::TruncatedInput, self.table, self.pos)
    }

    /// The failure of a seek, reported at `offset`.
    pub open spec fn out_of_range(self, offset: int) -> FontError {
        failure(ErrorKind::InvalidOffset, self.table, offset)
    }
}

/// A position in a buffer that is only read, with big-endian reads that move
/// it and seeks that set it. The position never passes the buffer's end.
pub struct ByteCursor<'a> {
    data: &'a [u8],
    pos: usize,
    table: Table,
}

impl<'a> View for ByteCursor<'a> {
    type V = CursorState;

    closed spec fn view(&self) -> CursorState {
        CursorState { bytes: self.data@, pos: self.pos as int, table: self.table }
    }
}

impl<'a> ByteCursor<'a> {
    #[verifier::type_invariant]
    spec fn in_bounds(self) -> bool {
        self.pos <= self.data@.len()
    }

    fn truncated(&self) -> (error: FontError)
        ensures
            error == self@.truncated(),
    {
        proof {
            use_type_invariant(self);
        }
        FontError { kind: ErrorKind::TruncatedInput, table: self.table, offset: self.pos as u64 }
    }

    /// A cursor at the start of `data`, whose failures name `table`.
    pub fn open(data: &'a [u8], table: Table) -> (cursor: Self)
        ensures
            cursor@ == (CursorState { bytes: data@, pos: 0, table }),
    {
        ByteCursor { data, pos: 0, table }
    }

    /// Another cursor over the same bytes and for the same table, at the
    /// start of the buffer. Moving it leaves this one where it is.
    pub fn reopen(&self) -> (cursor: Self)
        ensures
            cursor@ == self@.at(0),
    {
        ByteCursor { data: self.data, pos: 0, table: self.table }
    }

    /// The table whose name the failures carry.
    pub fn table(&self) -> (table: Table)
        ensures
            table == self@.table,
    {
        self.table
    }

    /// The length of the buffer in bytes.
    pub fn len(&self) -> (len: usize)
        ensures
            len == self@.bytes.len(),
            self@.in_buffer(),
    {
        proof {
            use_type_invariant(self);
        }
        self.data.len()
    }

    /// The position, counted in bytes from the start of the buffer.
    pub fn position(&self) -> (pos: u64)
        ensures
            pos == self@.pos,
            self@.in_buffer(),
    {
        proof {
            use_type_invariant(self);
        }
        self.pos as u64
    }

    /// Succeeds when `count` more bytes can be read, and fails as a read of
    /// that many bytes would.
    pub fn require(&self, count: usize) -> (result: Result<(), FontError>)
        ensures
            self@.in_buffer(),
            self@.fits(count as int) ==> result == Ok::<(), FontError>(()),
            !self@.fits(count as int) ==> result == Err::<(), FontError>(self@.truncated()),
    {
        proof {
            use_type_invariant(self);
        }
        if count <= self.data.len() - self.pos {
            Ok(())
        } else {
            Err(self.truncated())
        }
    }

    /// Moves to `offset`, which may be any position up to the buffer's end.
    pub fn seek_absolute(&mut self, offset: u64) -> (result: Result<(), FontError>)
        ensures
            offset <= old(self)@.bytes.len() ==> result == Ok::<(), FontError>(()) && final(self)@
                == old(self)@.at(offset as int),
            offset > old(self)@.bytes.len() ==> result == Err::<(), FontError>(
                old(self)@.out_of_range(offset as int),
            ) && final(self)@ == old(self)@,
    {
        if offset <= self.data.len() as u64 {
            self.pos = offset as usize;
            Ok(())
        } else {
            Err(FontError { kind: ErrorKind::InvalidOffset, table: self.table, offset })
        }
    }

    /// Moves by `delta` bytes, backwards where it is negative. The target may
    /// be any position from the buffer's start to its end.
    pub fn seek_relative(&mut self, delta: i64) -> (result: Result<(), FontError>)
        ensures
            0 <= old(self)@.pos + delta <= old(self)@.bytes.len() ==> result == Ok::<(), FontError>(
                (),
            ) && final(self)@ == old(self)@.advanced(delta as int),
            !(0 <= old(self)@.pos + delta <= old(self)@.bytes.len()) ==> result == Err::<
                (),
                FontError,
            >(old(self)@.out_of_range(old(self)@.pos)) && final(self)@ == old(self)@,
    {
        proof {
            use_type_invariant(&*self);
        }
        let ahead: usize = self.data.len() - self.pos;
        if delta >= 0 && delta as u64 <= ahead as u64 {
            self.pos = self.pos + delta as usize;
            Ok(())
        } else if delta < 0 && ((-(delta + 1)) as u64) < self.pos as u64 {
            let back: u64 = (-(delta + 1)) as u64 + 1;
            self.pos = self.pos - back as usize;
            Ok(())
        } else {
            Err(FontError { kind: ErrorKind::InvalidOffset, table: self.table, offset: self.pos as u64 })
        }
    }

    /// Reads one byte and moves past it.
    pub fn read_u8(&mut self) -> (result: Result<u8, FontError>)
        ensures
            old(self)@.fits(1) ==> result == Ok::<u8, FontError>(
                old(self)@.bytes[old(self)@.pos],
            ) && final(self)@ == old(self)@.advanced(1),
            !old(self)@.fits(1) ==> result == Err::<u8, FontError>(old(self)@.truncated())
                && final(self)@ == old(self)@,
    {
        proof {
            use_type_invariant(&*self);
        }
        if self.pos < self.data.len() {
            let value = self.data[self.pos];
            self.pos = self.pos + 1;
            Ok(value)
        } else {
            Err(self.truncated())
        }
    }

    /// Reads one unsigned 16-bit integer and moves past it.
    pub fn read_u16(&mut self) -> (result: Result<u16, FontError>)
        ensures
            old(self)@.fits(2) ==> result == Ok::<u16, FontError>(
                u16_at(old(self)@.bytes, old(self)@.pos),
            ) && final(self)@ == old(self)@.advanced(2),
            !old(self)@.fits(2) ==> result == Err::<u16, FontError>(old(self)@.truncated())
                && final(self)@ == old(self)@,
    {
        proof {
            use_type_invariant(&*self);
        }
        if 2 <= self.data.len() - self.pos {
            let field = slice_subrange(self.data, self.pos, self.pos + 2);
            let value = be_u16(field);
            self.pos = self.pos + 2;
            Ok(value)
        } else {
            Err(self.truncated())
        }
    }

    /// Reads one signed 16-bit integer and moves past it.
    pub fn read_i16(&mut self) -> (result: Result<i16, FontError>)
        ensures
            old(self)@.fits(2) ==> result == Ok::<i16, FontError>(
                i16_at(old(self)@.bytes, old(self)@.pos),
            ) && final(self)@ == old(self)@.advanced(2),
            !old(self)@.fits(2) ==> result == Err::<i16, FontError>(old(self)@.truncated())
                && final(self)@ == old(self)@,
    {
        proof {
            use_type_invariant(&*self);
        }
        if 2 <= self.data.len() - self.pos {
            let field = slice_subrange(self.data, self.pos, self.pos + 2);
            let value = be_i16(field);
            self.pos = self.pos + 2;
            Ok(value)
        } else {
            Err(self.truncated())
        }
    }

    /// Reads one unsigned 32-bit integer and moves past it.
    pub fn read_u32(&mut self) -> (result: Result<u32, FontError>)
        ensures
            old(self)@.fits(4) ==> result == Ok::<u32, FontError>(
                u32_at(old(self)@.bytes, old(self)@.pos),
            ) && final(self)@ == old(self)@.advanced(4),
            !old(self)@.fits(4) ==> result == Err::<u32, FontError>(old(self)@.truncated())
                && final(self)@ == old(self)@,
    {
        proof {
            use_type_invariant(&*self);
        }
        if 4 <= self.data.len() - self.pos {
            let field = slice_subrange(self.data, self.pos, self.pos + 4);
            let value = be_u32(field);
            self.pos = self.pos + 4;
            Ok(value)
        } else {
            Err(self.truncated())
        }
    }

    /// Hands out the next `count` bytes and moves past them.
    pub fn read_exact(&mut self, count: usize) -> (result: Result<&'a [u8], FontError>)
        ensures
            old(self)@.fits(count as int) ==> final(self)@ == old(self)@.advanced(count as int) && (
            result matches Ok(bytes) && bytes@ == old(self)@.bytes.subrange(
                old(self)@.pos,
                old(self)@.pos + count,
            )),
            !old(self)@.fits(count as int) ==> result == Err::<&[u8], FontError>(
                old(self)@.truncated(),
            ) && final(self)@ == old(self)@,
    {
        proof {
            use_type_invariant(&*self);
        }
        if count <= self.data.len() - self.pos {
            let bytes = slice_subrange(self.data, self.pos, self.pos + count);
            self.pos = self.pos + count;
            Ok(bytes)
        } else {
            Err(self.truncated())
        }
    }

    /// Reads `count` unsigned 16-bit integers that lie one after the other
    /// and moves past them. Where they do not all fit, nothing is read.
    pub fn read_u16_array(&mut self, count: usize) -> (result: Result<Vec<u16>, FontError>)
        ensures
            old(self)@.fits(2 * count) ==> final(self)@ == old(self)@.advanced(2 * count) && (
            result matches Ok(values) && values@ == u16s_at(
                old(self)@.bytes,
                old(self)@.pos,
                count as int,
            )),
            !old(self)@.fits(2 * count) ==> result == Err::<Vec<u16>, FontError>(
                old(self)@.truncated(),
            ) && final(self)@ == old(self)@,
    {
        proof {
            use_type_invariant(&*self);
        }
        if count > (self.data.len() - self.pos) / 2 {
            return Err(self.truncated());
        }
        let ghost start = self@;
        let mut values: Vec<u16> = Vec::new();
        let mut i: usize = 0;
        while i < count
            invariant
                i <= count,
                start.fits(2 * count),
                0 <= start.pos,
                self@ == start.advanced(2 * i),
                values@ == u16s_at(start.bytes, start.pos, i as int),
            decreases count - i,
        {
            let value = self.read_u16()?;
            values.push(value);
            i = i + 1;
        }
        Ok(values)
    }
}

} // verus!
