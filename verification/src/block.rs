use crate::block_type::{BlockContent, BlockType};
use crate::error::{BhError, BhResult};
use vstd::prelude::*;

verus! {

/// The bytes of one block record.
pub const NUM_BYTES_PER_BLOCK: usize = 64;

/// The place of the foreground type in a record.
pub const FOREGROUND_AT: usize = 0;

/// The place of the background type in a record.
pub const BACKGROUND_AT: usize = 1;

/// The place of the content code in a record.
pub const CONTENT_AT: usize = 3;

/// A block record that can be read: 64 bytes inside a chunk.
#[derive(Debug, Clone, Copy)]
pub struct Block<'chunk>(pub &'chunk [u8; 64]);

/// A block record that can be read and written in place.
pub struct BlockMut<'chunk>(pub &'chunk mut [u8; 64]);

/// The upper-case hexadecimal digit of a value below 16.
pub open spec fn hex_digit(nibble: u8) -> char {
    match nibble {
        0 => '0',
        1 => '1',
        2 => '2',
        3 => '3',
        4 => '4',
        5 => '5',
        6 => '6',
        7 => '7',
        8 => '8',
        9 => '9',
        10 => 'A',
        11 => 'B',
        12 => 'C',
        13 => 'D',
        14 => 'E',
        _ => 'F',
    }
}

/// What follows byte `i` in a dump: a space inside a row of eight, a line
/// break at the end of a row, nothing after the last byte.
pub open spec fn hex_separator(i: int) -> Seq<char> {
    if i % 8 != 7 {
        seq![' ']
    } else if i < 63 {
        seq!['\n']
    } else {
        seq![]
    }
}

/// Byte `i` of a record as it stands in a dump: two digits and what follows.
pub open spec fn hex_cell(record: Seq<u8>, i: int) -> Seq<char> {
    seq![hex_digit(record[i] / 16), hex_digit(record[i] % 16)] + hex_separator(i)
}

/// The dump of the first `n` bytes of a record.
pub open spec fn hex_dump_prefix(record: Seq<u8>, n: int) -> Seq<char>
    decreases n,
{
    if n <= 0 {
        seq![]
    } else {
        hex_dump_prefix(record, n - 1) + hex_cell(record, n - 1)
    }
}

/// The dump of a whole record: eight rows of eight bytes, two upper-case
/// digits each, the bytes of a row parted by single spaces.
pub open spec fn hex_dump(record: Seq<u8>) -> Seq<char> {
    hex_dump_prefix(record, 64)
}

/// A dump of `n` bytes has three characters for each byte, less one after
/// the last byte of the record.
pub proof fn lemma_hex_dump_len(record: Seq<u8>, n: int)
    requires
        0 <= n <= 64,
    ensures
        hex_dump_prefix(record, n).len() == if n == 64 {
            191int
        } else {
            3 * n
        },
    decreases n,
{
    if n > 0 {
        lemma_hex_dump_len(record, n - 1);
    }
}

fn to_hex(nibble: u8) -> (s: &'static str)
    requires
        nibble < 16,
    ensures
        s@ == seq![hex_digit(nibble)],
{
    proof {
        reveal_strlit("0");
        reveal_strlit("1");
        reveal_strlit("2");
        reveal_strlit("3");
        reveal_strlit("4");
        reveal_strlit("5");
        reveal_strlit("6");
        reveal_strlit("7");
        reveal_strlit("8");
        reveal_strlit("9");
        reveal_strlit("A");
        reveal_strlit("B");
        reveal_strlit("C");
        reveal_strlit("D");
        reveal_strlit("E");
        reveal_strlit("F");
    }
    match nibble {
        0 => "0",
        1 => "1",
        2 => "2",
        3 => "3",
        4 => "4",
        5 => "5",
        6 => "6",
        7 => "7",
        8 => "8",
        9 => "9",
        10 => "A",
        11 => "B",
        12 => "C",
        13 => "D",
        14 => "E",
        _ => "F",
    }
}

impl<'chunk> Block<'chunk> {
    /// The 64 bytes of the record.
    pub open spec fn view(&self) -> Seq<u8> {
        self.0@
    }

    pub fn new(record: &'chunk [u8; 64]) -> (block: Self)
        ensures
            block@ == record@,
    {
        Block(record)
    }

    /// The record as text, for diagnostics: see [`hex_dump`].
    pub fn to_hex_string_single_allocation(&self) -> (s: String)
        ensures
            s@ == hex_dump(self@),
    {
        let mut result = String::new();
        let mut i: usize = 0;
        while i < 64
            invariant
                i <= 64,
                result@ == hex_dump_prefix(self@, i as int),
            decreases 64 - i,
        {
            let byte: u8 = self.0[i];
            proof {
                reveal_strlit(" ");
                reveal_strlit("\n");
            }
            result.append(to_hex(byte / 16));
            result.append(to_hex(byte % 16));
            if i % 8 != 7 {
                result.append(" ");
            }
            if i % 8 == 7 && i < 63 {
                result.append("\n");
            }
            i += 1;
        }
        result
    }
}

impl<'chunk> std::ops::Deref for Block<'chunk> {
    type Target = [u8; 64];

    fn deref(&self) -> (bytes: &[u8; 64])
        ensures
            bytes@ == self@,
    {
        self.0
    }
}

impl<'chunk> std::ops::Deref for BlockMut<'chunk> {
    type Target = [u8; 64];

    fn deref(&self) -> (bytes: &[u8; 64])
        ensures
            bytes@ == self@,
    {
        &*self.0
    }
}

/// Reading the typed fields of a block record.
///
/// Byte 0 is the foreground type, byte 1 the background type, byte 3 the
/// content code. All other bytes are kept and never interpreted.
pub trait BlockView {
    /// The 64 bytes of the record.
    spec fn record(&self) -> Seq<u8>;

    /// The bytes themselves.
    fn bytes(&self) -> (bytes: &[u8; 64])
        ensures
            bytes@ == self.record(),
    ;

    /// The foreground type, if byte 0 names one.
    fn fg(&self) -> (r: BhResult<BlockType>)
        ensures
            match r {
                Ok(kind) => BlockType::decode(self.record()[0]) == Some(kind),
                Err(e) => BlockType::decode(self.record()[0]) is None && e
                    == BhError::InvalidBlockIdError(self.record()[0]),
            },
    {
        BlockType::try_from_u8(self.fg_raw())
    }

    /// Byte 0, the foreground type as it is stored.
    fn fg_raw(&self) -> (b: u8)
        ensures
            b == self.record()[0],
    {
        self.bytes()[FOREGROUND_AT]
    }

    /// The content, if byte 3 names one.
    fn content(&self) -> (r: BhResult<BlockContent>)
        ensures
            match r {
                Ok(content) => BlockContent::decode(self.record()[3]) == Some(content),
                Err(e) => BlockContent::decode(self.record()[3]) is None && e
                    == BhError::InvalidBlockContentIdError(self.record()[3]),
            },
    {
        BlockContent::try_from_u8(self.content_raw())
    }

    /// Byte 3, the content code as it is stored.
    fn content_raw(&self) -> (b: u8)
        ensures
            b == self.record()[3],
    {
        self.bytes()[CONTENT_AT]
    }

    /// The background type, if byte 1 names one.
    fn bg(&self) -> (r: BhResult<BlockType>)
        ensures
            match r {
                Ok(kind) => BlockType::decode(self.record()[1]) == Some(kind),
                Err(e) => BlockType::decode(self.record()[1]) is None && e
                    == BhError::InvalidBlockIdError(self.record()[1]),
            },
    {
        BlockType::try_from_u8(self.bg_raw())
    }

    /// Byte 1, the background type as it is stored.
    fn bg_raw(&self) -> (b: u8)
        ensures
            b == self.record()[1],
    {
        self.bytes()[BACKGROUND_AT]
    }
}

impl<'chunk> BlockView for Block<'chunk> {
    open spec fn record(&self) -> Seq<u8> {
        self.0@
    }

    fn bytes(&self) -> (bytes: &[u8; 64]) {
        self.0
    }
}

impl<'chunk> BlockView for BlockMut<'chunk> {
    open spec fn record(&self) -> Seq<u8> {
        self.0@
    }

    fn bytes(&self) -> (bytes: &[u8; 64]) {
        &*self.0
    }
}

/// A value that a record stores as one byte: a raw code, a block type, or
/// a block content.
pub trait RecordByte {
    /// The byte that is stored.
    spec fn byte(&self) -> u8;

    fn to_byte(&self) -> (b: u8)
        ensures
            b == self.byte(),
    ;
}

impl RecordByte for u8 {
    open spec fn byte(&self) -> u8 {
        *self
    }

    fn to_byte(&self) -> (b: u8) {
        *self
    }
}

impl RecordByte for BlockType {
    open spec fn byte(&self) -> u8 {
        self.code()
    }

    fn to_byte(&self) -> (b: u8) {
        self.to_u8()
    }
}

impl RecordByte for BlockContent {
    open spec fn byte(&self) -> u8 {
        self.code()
    }

    fn to_byte(&self) -> (b: u8) {
        self.to_u8()
    }
}

/// Writing the typed fields of a block record. Each setter changes its one
/// byte and leaves the other 63 as they were.
pub trait BlockViewMut: BlockView {
    /// Sets byte 0, the foreground type.
    fn set_fg<I: RecordByte>(&mut self, value: I)
        ensures
            final(self).record() == old(self).record().update(0, value.byte()),
    ;

    /// Sets byte 3, the content code.
    fn set_fg_content<I: RecordByte>(&mut self, value: I)
        ensures
            final(self).record() == old(self).record().update(3, value.byte()),
    ;

    /// Sets byte 1, the background type.
    fn set_bg<I: RecordByte>(&mut self, value: I)
        ensures
            final(self).record() == old(self).record().update(1, value.byte()),
    ;
}

impl<'chunk> BlockMut<'chunk> {
    /// The 64 bytes of the record as they are now.
    pub open spec fn view(&self) -> Seq<u8> {
        self.0@
    }

    pub fn new(record: &'chunk mut [u8; 64]) -> (block: Self)
        ensures
            block@ == old(record)@,
            final(block.0)@ == final(record)@,
    {
        BlockMut(record)
    }
}

/// On a [`BlockMut`] each setter writes through to the chunk: the view
/// still stands for the same 64 bytes of it afterwards.
impl<'chunk> BlockViewMut for BlockMut<'chunk> {
    fn set_fg<I: RecordByte>(&mut self, value: I)
        ensures
            final(final(self).0)@ == final(old(self).0)@,
    {
        self.0[FOREGROUND_AT] = value.to_byte();
    }

    fn set_fg_content<I: RecordByte>(&mut self, value: I)
        ensures
            final(final(self).0)@ == final(old(self).0)@,
    {
        self.0[CONTENT_AT] = value.to_byte();
    }

    fn set_bg<I: RecordByte>(&mut self, value: I)
        ensures
            final(final(self).0)@ == final(old(self).0)@,
    {
        self.0[BACKGROUND_AT] = value.to_byte();
    }
}

} // verus!
