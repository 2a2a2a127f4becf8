use crate::block::{Block, BlockMut, BlockView};
use crate::block_type::{lemma_block_type_names, BlockType};
use crate::coords::{lemma_record_offset, ChunkBlockCoord, ChunkOffset};
use crate::decimal::{decimal_text, u8_to_decimal};
use crate::gzip::FromCompressedGzip;
use flate2::read::GzDecoder;
use std::io::Read;
use vstd::prelude::*;
use vstd::slice::slice_subrange;

verus! {

/// The blocks in one row of a chunk.
pub const NUM_BLOCK_PER_ROW: usize = 32;

/// The blocks in one column of a chunk.
pub const NUM_BLOCK_PER_COL: usize = 32;

/// The bytes of a chunk: 32 rows of 32 records of 64 bytes, and 5 bytes
/// after them that are kept and never looked at.
pub const CHUNK_BYTES: usize = 65541;

/// One chunk of the world, as it is stored once decompressed.
#[derive(Debug)]
pub struct Chunk([u8; CHUNK_BYTES]);

/// The first `len` bytes that a gzip stream decompresses to, if it gives
/// that many before it ends or fails.
pub uninterp spec fn gunzip_exact(compressed: Seq<u8>, len: nat) -> Option<Seq<u8>>;

/// `flate2::read::GzDecoder::new` on the compressed bytes, then
/// `read_exact` into `out`. The read succeeds exactly when the stream
/// gives enough bytes to fill `out`, and `out` then holds them; a stream
/// that ends early or is damaged is an error. What `out` holds after an
/// error is not stated.
#[verifier::external_body]
fn read_gzip_exact(compressed: &[u8], out: &mut [u8]) -> (r: Result<(), std::io::Error>)
    ensures
        final(out)@.len() == old(out)@.len(),
        match r {
            Ok(()) => gunzip_exact(compressed@, old(out)@.len()) == Some(final(out)@),
            Err(_) => gunzip_exact(compressed@, old(out)@.len()) is None,
        },
{
    GzDecoder::new(compressed).read_exact(out)
}

/// `<&[u8; 64]>::try_from` of std: a slice of 64 bytes as a reference to
/// an array, the same bytes at the same place; any other length gives
/// nothing.
#[verifier::external_body]
fn as_record(window: &[u8]) -> (record: Option<&[u8; 64]>)
    ensures
        match record {
            Some(bytes) => window@.len() == 64 && bytes@ == window@,
            None => window@.len() != 64,
        },
{
    <&[u8; 64]>::try_from(window).ok()
}

/// `<&mut [u8; 64]>::try_from` of std: as [`as_record`], for writing. What
/// is written through the array reference is written to the slice.
#[verifier::external_body]
fn as_record_mut(window: &mut [u8]) -> (record: Option<&mut [u8; 64]>)
    ensures
        match record {
            Some(bytes) => old(window)@.len() == 64 && bytes@ == old(window)@ && final(window)@
                == final(bytes)@,
            None => old(window)@.len() != 64 && final(window)@ == old(window)@,
        },
{
    <&mut [u8; 64]>::try_from(window).ok()
}

/// The 64 bytes of the record that starts at `offset`.
pub open spec fn record_at(content: Seq<u8>, offset: int) -> Seq<u8> {
    content.subrange(offset, offset + 64)
}

/// The bytes of a chunk after the record that starts at `offset` has been
/// replaced.
pub open spec fn with_record(content: Seq<u8>, offset: int, record: Seq<u8>) -> Seq<u8> {
    content.subrange(0, offset) + record + content.subrange(offset + 64, content.len() as int)
}

/// A record that was written is the record that is read at its place, and
/// every record at another place reads as before.
pub proof fn lemma_write_then_read(content: Seq<u8>, offset: int, record: Seq<u8>, other: int)
    requires
        record.len() == 64,
        0 <= offset,
        offset + 64 <= content.len(),
    ensures
        with_record(content, offset, record).len() == content.len(),
        record_at(with_record(content, offset, record), offset) == record,
        0 <= other && other + 64 <= content.len() && (other + 64 <= offset || offset + 64 <= other)
            ==> record_at(with_record(content, offset, record), other) == record_at(
            content,
            other,
        ),
{
}

/// How a block shows in the map of a chunk: the first five characters of
/// the name of its foreground type, or the byte itself in decimal where
/// it names no type.
pub open spec fn cell_text(fg: u8) -> Seq<char> {
    match BlockType::decode(fg) {
        Some(kind) => if kind.name().len() <= 5 {
            kind.name()
        } else {
            kind.name().take(5)
        },
        None => decimal_text(fg as nat),
    }
}

/// A text set to the right of a column of the given width.
pub open spec fn right_justified(text: Seq<char>, width: nat) -> Seq<char> {
    if text.len() >= width {
        text
    } else {
        Seq::new((width - text.len()) as nat, |i: int| ' ') + text
    }
}

/// The first `n` blocks of row `y` in the map, seven columns each.
pub open spec fn map_row(content: Seq<u8>, y: int, n: int) -> Seq<char>
    decreases n,
{
    if n <= 0 {
        seq![]
    } else {
        map_row(content, y, n - 1) + right_justified(
            cell_text(content[(y * 32 + (n - 1)) * 64]),
            7,
        )
    }
}

/// The rows of the map from the top row, 31, down to row `y`. A line
/// break follows every row but row 0.
pub open spec fn map_rows(content: Seq<u8>, y: int) -> Seq<char>
    decreases 32 - y,
{
    if y >= 32 {
        seq![]
    } else {
        map_rows(content, y + 1) + map_row(content, y, 32) + if y > 0 {
            seq!['\n']
        } else {
            seq![]
        }
    }
}

/// The map of a chunk by foreground type: 32 rows of 32 blocks, the
/// highest row first.
pub open spec fn chunk_map(content: Seq<u8>) -> Seq<char> {
    map_rows(content, 0)
}

/// Sets a text of at most seven characters to the right of a column of seven.
fn push_right_justified(result: &mut String, text: &str)
    requires
        text@.len() <= 7,
    ensures
        final(result)@ == old(result)@ + right_justified(text@, 7),
{
    let len = text.unicode_len();
    let mut pad: usize = 0;
    while pad < 7 - len
        invariant
            len == text@.len(),
            len <= 7,
            pad <= 7 - len,
            result@ == old(result)@ + Seq::new(pad as nat, |i: int| ' '),
        decreases 7 - len - pad,
    {
        proof {
            reveal_strlit(" ");
        }
        result.append(" ");
        pad += 1;
        assert(result@ == old(result)@ + Seq::new(pad as nat, |i: int| ' '));
    }
    result.append(text);
    assert(result@ == old(result)@ + right_justified(text@, 7));
}

proof fn lemma_decimal_text_len(value: u8)
    ensures
        1 <= decimal_text(value as nat).len() <= 3,
{
    reveal_with_fuel(decimal_text, 3);
}

/// An array whose first `n` bytes are those of `content`.
spec fn array_holding(content: Seq<u8>, n: int) -> [u8; CHUNK_BYTES]
    decreases n,
{
    if n <= 0 {
        [0u8;CHUNK_BYTES]
    } else {
        vstd::array::spec_array_update(array_holding(content, n - 1), n - 1, content[n - 1])
    }
}

proof fn lemma_array_holding(content: Seq<u8>, n: int)
    requires
        0 <= n <= CHUNK_BYTES,
    ensures
        forall|i: int| 0 <= i < n ==> array_holding(content, n)@[i] == content[i],
    decreases n,
{
    if n > 0 {
        lemma_array_holding(content, n - 1);
    }
}

impl Chunk {
    /// All the bytes of the chunk, in the order of the save format.
    pub closed spec fn view(&self) -> Seq<u8> {
        self.0@
    }

    /// The chunk that holds these bytes, where there are 65541 of them.
    pub closed spec fn holding(content: Seq<u8>) -> Chunk {
        choose|chunk: Chunk| chunk@ == content
    }

    /// A chunk is its bytes: two chunks with the same bytes are the same.
    pub proof fn lemma_holding(self)
        ensures
            Chunk::holding(self@) == self,
            self@.len() == CHUNK_BYTES,
    {
        let other = Chunk::holding(self@);
        assert(other@ == self@);
        assert(other.0 =~= self.0);
    }

    /// Any 65541 bytes are the bytes of a chunk.
    pub proof fn lemma_holds(content: Seq<u8>)
        requires
            content.len() == CHUNK_BYTES,
        ensures
            Chunk::holding(content)@ == content,
    {
        let chunk = Chunk(array_holding(content, CHUNK_BYTES as int));
        lemma_array_holding(content, CHUNK_BYTES as int);
        assert(chunk@ =~= content);
    }

    /// A chunk of zero bytes.
    pub fn new_empty() -> (chunk: Self)
        ensures
            chunk@ == Seq::new(CHUNK_BYTES as nat, |i: int| 0u8),
    {
        Self([0;CHUNK_BYTES])
    }

    pub fn inner(&self) -> (bytes: &[u8])
        ensures
            bytes@ == self@,
            bytes@.len() == CHUNK_BYTES,
    {
        &self.0
    }

    pub fn inner_mut(&mut self) -> (bytes: &mut [u8])
        ensures
            bytes@ == old(self)@,
            bytes@.len() == CHUNK_BYTES,
            final(self)@ == final(bytes)@,
    {
        &mut self.0
    }

    /// The record that a position names, to be read.
    pub fn block_at<O: ChunkOffset>(&self, coord: O) -> (block: Block<'_>)
        ensures
            block@ == record_at(self@, coord.offset() as int),
    {
        let offset = coord.to_offset();
        let window = slice_subrange(self.inner(), offset, offset + 64);
        match as_record(window) {
            Some(record) => Block::new(record),
            None => vstd::pervasive::unreached(),
        }
    }

    /// The record that a position names, to be read and written. What
    /// is written goes to those 64 bytes of the chunk and to no others.
    pub fn block_at_mut<O: ChunkOffset>(&mut self, coord: O) -> (block: BlockMut<'_>)
        ensures
            block@ == record_at(old(self)@, coord.offset() as int),
            final(self)@ == with_record(old(self)@, coord.offset() as int, final(block.0)@),
    {
        let offset = coord.to_offset();
        let (_, tail) = self.inner_mut().split_at_mut(offset);
        let (window, _) = tail.split_at_mut(64);
        match as_record_mut(window) {
            Some(record) => BlockMut::new(record),
            None => vstd::pervasive::unreached(),
        }
    }
}

impl Chunk {
    /// The chunk as a map for reading: see [`chunk_map`].
    pub fn display_chunk_by_fg(&self) -> (map: String)
        ensures
            map@ == chunk_map(self@),
    {
        let mut result = String::new();
        let mut y: u8 = 32;
        while y > 0
            invariant
                y <= 32,
                result@ == map_rows(self@, y as int),
            decreases y,
        {
            y -= 1;
            let ghost above = result@;
            let mut x: u8 = 0;
            while x < 32
                invariant
                    x <= 32,
                    y < 32,
                    result@ == above + map_row(self@, y as int, x as int),
                decreases 32 - x,
            {
                let coord = match ChunkBlockCoord::new(x, y) {
                    Ok(coord) => coord,
                    Err(_) => vstd::pervasive::unreached(),
                };
                proof {
                    lemma_record_offset(x, y);
                    self.lemma_holding();
                }
                let block = self.block_at(coord);
                assert(block@[0] == self@[(y * 32 + x) * 64]);
                match block.fg() {
                    Ok(kind) => {
                        let name = kind.as_str();
                        proof {
                            lemma_block_type_names(kind);
                        }
                        let len = name.unicode_len();
                        let shown = if len <= 5 {
                            name
                        } else {
                            name.substring_ascii(0, 5)
                        };
                        push_right_justified(&mut result, shown);
                    },
                    Err(_) => {
                        let digits = u8_to_decimal(block.fg_raw());
                        proof {
                            lemma_decimal_text_len(block@[0]);
                        }
                        push_right_justified(&mut result, digits.as_str());
                    },
                }
                x += 1;
            }
            if y > 0 {
                proof {
                    reveal_strlit("\n");
                }
                result.append("\n");
            }
        }
        result
    }
}

/// The chunk that compressed bytes hold has for its bytes the first 65541
/// bytes that the stream decompresses to.
pub proof fn lemma_decoded_chunk(bytes: Seq<u8>)
    ensures
        match Chunk::decoded(bytes) {
            Some(chunk) => gunzip_exact(bytes, CHUNK_BYTES as nat) == Some(chunk@),
            None => true,
        },
{
    if let Some(content) = gunzip_exact(bytes, CHUNK_BYTES as nat) {
        if content.len() == CHUNK_BYTES {
            Chunk::lemma_holds(content);
        }
    }
}

impl FromCompressedGzip for Chunk {
    /// A chunk is the first 65541 bytes that the stream decompresses to.
    open spec fn decoded(bytes: Seq<u8>) -> Option<Self> {
        match gunzip_exact(bytes, CHUNK_BYTES as nat) {
            Some(content) => if content.len() == CHUNK_BYTES {
                Some(Chunk::holding(content))
            } else {
                None
            },
            None => None,
        }
    }

    /// Decompresses a chunk. The stream must give at least 65541 bytes;
    /// one that ends before, or is damaged before, is an error.
    fn from_compressed_gzip(bytes: &[u8]) -> (r: Result<Self, std::io::Error>)
        ensures
            match r {
                Ok(chunk) => gunzip_exact(bytes@, CHUNK_BYTES as nat) == Some(chunk@),
                Err(_) => gunzip_exact(bytes@, CHUNK_BYTES as nat) is None,
            },
    {
        let mut chunk = Self::new_empty();
        match read_gzip_exact(bytes, chunk.inner_mut()) {
            Ok(()) => {
                proof {
                    chunk.lemma_holding();
                }
                Ok(chunk)
            },
            Err(e) => Err(e),
        }
    }
}

} // verus!
