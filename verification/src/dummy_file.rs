//! An in-memory file that is handed to an upload in place of a file on disk.

use vstd::prelude::*;
use vstd::slice::slice_to_vec;

verus! {

/// Where a seek starts from, and by how much it moves.
#[derive(Clone, Copy, Debug, PartialEq, Eq, Structural)]
pub enum SeekFrom {
    /// That many bytes from the start.
    Start(u64),
    /// That many bytes before the end.
    End(i64),
    /// That many bytes after the current position.
    Current(i64),
}

/// The errors that an operation on a [`DummyFile`] can give.
#[derive(Clone, Copy, Debug, PartialEq, Eq, Structural)]
pub enum FileError {
    /// The position that was asked for lies before the start of the file.
    InvalidInput,
}

/// What a [`DummyFile`] stands for: the bytes of the file and the position of the next read.
#[verifier::ext_equal]
pub struct FileState {
    pub cursor: int,
    pub data: Seq<u8>,
}

impl FileState {
    /// The bytes that lie at and after the cursor.
    pub open spec fn remaining(self) -> Seq<u8> {
        if self.cursor < self.data.len() {
            self.data.skip(self.cursor)
        } else {
            Seq::empty()
        }
    }

    /// The file with its cursor moved.
    pub open spec fn at(self, cursor: int) -> FileState {
        FileState { cursor, ..self }
    }

    /// The file once everything that remains has been read.
    pub open spec fn drained(self) -> FileState {
        self.at(self.cursor + self.remaining().len())
    }

    /// The position that a seek leads to; a negative one is refused.
    pub open spec fn seek_target(self, pos: SeekFrom) -> int {
        match pos {
            SeekFrom::Start(offset) => as_signed(offset as int),
            SeekFrom::End(offset) => as_signed(self.data.len() as int) - offset,
            SeekFrom::Current(offset) => as_signed(self.cursor) + offset,
        }
    }

    /// Whether the position that a seek leads to is one that the signed arithmetic can hold.
    pub open spec fn seek_fits(self, pos: SeekFrom) -> bool {
        i64::MIN <= self.seek_target(pos) <= i64::MAX
    }

    /// Everything that one-byte reads give until one gives nothing.
    pub open spec fn read_byte_by_byte(self) -> Seq<u8>
        decreases self.data.len() - self.cursor,
    {
        if 0 <= self.cursor < self.data.len() {
            seq![self.data[self.cursor]] + self.at(self.cursor + 1).read_byte_by_byte()
        } else {
            Seq::empty()
        }
    }
}

/// A file that is read byte by byte gives what it gives when it is read in one go.
pub proof fn law_byte_by_byte(file: FileState)
    requires
        0 <= file.cursor,
    ensures
        file.read_byte_by_byte() == file.remaining(),
    decreases file.data.len() - file.cursor,
{
    if file.cursor < file.data.len() {
        law_byte_by_byte(file.at(file.cursor + 1));
        assert(seq![file.data[file.cursor]] + file.at(file.cursor + 1).remaining()
            =~= file.remaining());
    }
}

/// Reading to the end leaves nothing to read.
pub proof fn law_drained_file_has_no_more(file: FileState)
    requires
        0 <= file.cursor,
    ensures
        file.drained().remaining() == Seq::<u8>::empty(),
        file.drained().data == file.data,
{
}

/// Going back to the start makes the whole content readable again, wherever the cursor was.
pub proof fn law_rewound_file_gives_its_content(file: FileState)
    ensures
        file.seek_fits(SeekFrom::Start(0)),
        file.seek_target(SeekFrom::Start(0)) == 0,
        file.at(0).remaining() == file.data,
{
    assert(file.at(0).remaining() =~= file.data);
}

/// Going to the end tells how long the content is, as far as a signed number can.
pub proof fn law_end_is_the_length(file: FileState)
    requires
        file.data.len() <= i64::MAX,
    ensures
        file.seek_fits(SeekFrom::End(0)),
        file.seek_target(SeekFrom::End(0)) == file.data.len(),
        file.at(file.seek_target(SeekFrom::End(0))).remaining() == Seq::<u8>::empty(),
{
}

/// The 64-bit two's complement reading of an unsigned number.
pub open spec fn as_signed(n: int) -> int {
    if n <= i64::MAX {
        n
    } else {
        n - 0x1_0000_0000_0000_0000
    }
}

/// The text that has one character for each byte, the one with the byte's number.
pub open spec fn latin1(bytes: Seq<u8>) -> Seq<char> {
    bytes.map_values(|b: u8| b as char)
}

/// `String::push` appends one character.
pub assume_specification[ String::push ](s: &mut String, ch: char)
    ensures
        final(s)@ == old(s)@.push(ch),
;

/// A file whose content lies in memory.
#[derive(Debug)]
pub struct DummyFile {
    cursor: u64,
    data: Vec<u8>,
}

impl View for DummyFile {
    type V = FileState;

    closed spec fn view(&self) -> FileState {
        FileState { cursor: self.cursor as int, data: self.data@ }
    }
}

fn signed(n: u64) -> (r: i64)
    ensures
        r == as_signed(n as int),
{
    assert(n <= 0x7fff_ffff_ffff_ffff ==> (n as i64) == n) by (bit_vector);
    assert(n > 0x7fff_ffff_ffff_ffff ==> (n as i64) == n - 0x1_0000_0000_0000_0000)
        by (bit_vector);
    #[verifier::truncate]
    (n as i64)
}

impl DummyFile {
    /// The cursor of a file, and the length of its content, are numbers that a machine can tell;
    /// no cursor lies before the start.
    pub proof fn law_in_range(self)
        ensures
            0 <= self@.cursor <= u64::MAX,
            self@.data.len() <= usize::MAX,
    {
        assert(self.data@.len() == self.data.len());
    }

    /// A file with the given content, to be read from its start.
    pub fn new(data: &[u8]) -> (r: DummyFile)
        ensures
            r@ == (FileState { cursor: 0, data: data@ }),
    {
        DummyFile { cursor: 0, data: slice_to_vec(data) }
    }

    /// Whether [`DummyFile::seek`] may be called with this position.
    pub fn seek_fits(&self, pos: SeekFrom) -> (r: bool)
        ensures
            r == self@.seek_fits(pos),
    {
        let wide: i128 = match pos {
            SeekFrom::Start(offset) => signed(offset) as i128,
            SeekFrom::End(offset) => signed(self.data.len() as u64) as i128 - offset as i128,
            SeekFrom::Current(offset) => signed(self.cursor) as i128 + offset as i128,
        };
        i64::MIN as i128 <= wide && wide <= i64::MAX as i128
    }

    /// Moves the cursor and gives its new position; a position before the start is refused, and
    /// the cursor then stays where it is.
    pub fn seek(&mut self, pos: SeekFrom) -> (r: Result<u64, FileError>)
        requires
            old(self)@.seek_fits(pos),
        ensures
            old(self)@.seek_target(pos) < 0 ==> r == Err::<u64, FileError>(FileError::InvalidInput)
                && final(self)@ == old(self)@,
            old(self)@.seek_target(pos) >= 0 ==> r == Ok::<u64, FileError>(
                old(self)@.seek_target(pos) as u64,
            ) && final(self)@ == old(self)@.at(old(self)@.seek_target(pos)),
    {
        let position: i64 = match pos {
            SeekFrom::Start(offset) => signed(offset),
            SeekFrom::End(offset) => signed(self.data.len() as u64) - offset,
            SeekFrom::Current(offset) => signed(self.cursor) + offset,
        };
        if position < 0 {
            Err(FileError::InvalidInput)
        } else {
            self.cursor = position as u64;
            Ok(self.cursor)
        }
    }

    /// Whether nothing remains to be read.
    pub fn at_end(&self) -> (r: bool)
        ensures
            r == (self@.remaining().len() == 0),
    {
        self.cursor >= self.data.len() as u64
    }

    /// Reads the byte under the cursor, if there is one, into the front of `buf`.
    pub fn read(&mut self, buf: &mut [u8]) -> (r: Result<usize, FileError>)
        requires
            old(buf)@.len() > 0 || old(self)@.remaining().len() == 0,
        ensures
            old(self)@.remaining().len() > 0 ==> {
                &&& r == Ok::<usize, FileError>(1)
                &&& final(buf)@ == old(buf)@.update(0, old(self)@.remaining()[0])
                &&& final(self)@ == old(self)@.at(old(self)@.cursor + 1)
            },
            old(self)@.remaining().len() == 0 ==> {
                &&& r == Ok::<usize, FileError>(0)
                &&& final(buf)@ == old(buf)@
                &&& final(self)@ == old(self)@
            },
    {
        if self.cursor < self.data.len() as u64 {
            buf[0] = self.data[self.cursor as usize];
            self.cursor = self.cursor + 1;
            Ok(1)
        } else {
            Ok(0)
        }
    }

    /// Appends everything that remains to `buf`.
    pub fn read_to_end(&mut self, buf: &mut Vec<u8>) -> (r: Result<usize, FileError>)
        ensures
            r == Ok::<usize, FileError>(old(self)@.remaining().len() as usize),
            final(buf)@ == old(buf)@ + old(self)@.remaining(),
            final(self)@ == old(self)@.drained(),
    {
        let mut written: usize = 0;
        let end: u64 = self.data.len() as u64;
        let mut i: u64 = self.cursor;
        while i < end
            invariant
                *self == *old(self),
                end == self.data.len(),
                self.cursor <= i,
                i <= end || i == self.cursor,
                written == i - self.cursor,
                written <= i,
                buf@ == old(buf)@ + self@.remaining().take(written as int),
            decreases end - i,
        {
            buf.push(self.data[i as usize]);
            written = written + 1;
            i = i + 1;
        }
        self.cursor = self.cursor + written as u64;
        Ok(written)
    }

    /// Appends everything that remains to `buf`, one character for each byte.
    pub fn read_to_string(&mut self, buf: &mut String) -> (r: Result<usize, FileError>)
        ensures
            r == Ok::<usize, FileError>(old(self)@.remaining().len() as usize),
            final(buf)@ == old(buf)@ + latin1(old(self)@.remaining()),
            final(self)@ == old(self)@.drained(),
    {
        let mut written: usize = 0;
        let end: u64 = self.data.len() as u64;
        let mut i: u64 = self.cursor;
        while i < end
            invariant
                *self == *old(self),
                end == self.data.len(),
                self.cursor <= i,
                i <= end || i == self.cursor,
                written == i - self.cursor,
                written <= i,
                buf@ == old(buf)@ + latin1(self@.remaining().take(written as int)),
            decreases end - i,
        {
            buf.push(self.data[i as usize] as char);
            written = written + 1;
            i = i + 1;
        }
        self.cursor = self.cursor + written as u64;
        Ok(written)
    }

    /// Reads nothing and reports success.
    pub fn read_exact(&mut self, buf: &mut [u8]) -> (r: Result<(), FileError>)
        ensures
            r == Ok::<(), FileError>(()),
            final(self)@ == old(self)@,
            final(buf)@ == old(buf)@,
    {
        Ok(())
    }

    /// The file itself, borrowed.
    pub fn by_ref(&mut self) -> (r: &mut DummyFile)
        ensures
            *r == *old(self),
            *final(self) == *final(r),
    {
        self
    }
}

/// What remains to be read is the content from the cursor on, byte for byte, and nothing once the
/// cursor is at or behind the end.
pub proof fn law_remaining(file: FileState)
    requires
        0 <= file.cursor,
    ensures
        file.remaining().len() == if file.cursor < file.data.len() {
            file.data.len() - file.cursor
        } else {
            0
        },
        forall|i: int|
            0 <= i < file.data.len() - file.cursor ==> #[trigger] file.remaining()[i]
                == file.data[file.cursor + i],
{
}

/// Moving the cursor moves the cursor alone; reading to the end moves it to the end of the
/// content, or leaves it where it is if it was there already.
pub proof fn law_only_the_cursor_moves(file: FileState, cursor: int)
    requires
        0 <= file.cursor,
    ensures
        file.at(cursor).cursor == cursor,
        file.at(cursor).data == file.data,
        file.drained().data == file.data,
        file.drained().cursor == if file.cursor < file.data.len() {
            file.data.len() as int
        } else {
            file.cursor
        },
{
}

/// Where a seek leads: as many bytes from the start, before the end or after the cursor as it
/// says. An unsigned number that a signed one cannot hold counts as a negative one.
pub proof fn law_where_a_seek_leads(file: FileState, from_start: u64, offset: i64)
    requires
        0 <= file.cursor <= u64::MAX,
        file.data.len() <= u64::MAX,
    ensures
        from_start <= i64::MAX ==> file.seek_target(SeekFrom::Start(from_start)) == from_start,
        from_start > i64::MAX ==> file.seek_target(SeekFrom::Start(from_start)) == from_start
            - 0x1_0000_0000_0000_0000,
        file.data.len() <= i64::MAX ==> file.seek_target(SeekFrom::End(offset))
            == file.data.len() - offset,
        file.data.len() > i64::MAX ==> file.seek_target(SeekFrom::End(offset))
            == file.data.len() - 0x1_0000_0000_0000_0000 - offset,
        file.cursor <= i64::MAX ==> file.seek_target(SeekFrom::Current(offset)) == file.cursor
            + offset,
        file.cursor > i64::MAX ==> file.seek_target(SeekFrom::Current(offset)) == file.cursor
            - 0x1_0000_0000_0000_0000 + offset,
        file.seek_fits(SeekFrom::Start(from_start)),
        file.seek_fits(SeekFrom::End(offset)) <==> i64::MIN <= file.seek_target(
            SeekFrom::End(offset),
        ) <= i64::MAX,
        file.seek_fits(SeekFrom::Current(offset)) <==> i64::MIN <= file.seek_target(
            SeekFrom::Current(offset),
        ) <= i64::MAX,
{
}

/// Reading to a string gives one character for each byte, the one with the byte's number.
pub proof fn law_one_character_for_each_byte(bytes: Seq<u8>)
    ensures
        latin1(bytes).len() == bytes.len(),
        forall|i: int| 0 <= i < bytes.len() ==> #[trigger] latin1(bytes)[i] == bytes[i] as char,
{
}

} // verus!
