use crate::decimal::{parse_bounded, parse_unsigned, DecimalError};
use crate::error::{BhError, BhResult};
use vstd::prelude::*;
use vstd::string::StringSliceAdditionalSpecFns;

verus! {

/// What a coordinate check answers: nothing, or the value and the limit
/// that it reached.
pub open spec fn coord_limit(val: u64, max_val: u64) -> BhResult<()> {
    if val < max_val {
        Ok(())
    } else {
        Err(BhError::CoordError { input: val, limit: max_val })
    }
}

pub fn check_coord_limit(val: u64, max_val: u64) -> (r: BhResult<()>)
    ensures
        r == coord_limit(val, max_val),
{
    if val < max_val {
        Ok(())
    } else {
        Err(BhError::CoordError { input: val, limit: max_val })
    }
}

/// Where the record of the block at column `x`, row `y` of a chunk starts
/// in the chunk's bytes: rows of 32 records, 64 bytes each.
///
/// ```text
/// 31| 992| 993| 994|     1023|
/// 30| 960| 961| 962|      991|
///              ...
///  1|  32|  33|  34|       63|
///  0|   0|   1|   2|       31|
///  Y`----|----|----|---------|
///   X   0|   1|   2|  ...  31|
/// ```
pub open spec fn record_offset(x: u8, y: u8) -> usize {
    (((y as usize) << 5) | (x as usize)) << 6
}

/// Inside a chunk the shifts are plain arithmetic: record `y * 32 + x`, 64
/// bytes each, and the last record ends before the chunk's five trailing
/// bytes.
pub proof fn lemma_record_offset(x: u8, y: u8)
    requires
        x < 32,
        y < 32,
    ensures
        record_offset(x, y) == (y * 32 + x) * 64,
        record_offset(x, y) + 64 <= 65536,
{
    assert((((y as usize) << 5) | (x as usize)) << 6 == (y * 32 + x) * 64) by (bit_vector)
        requires
            x < 32,
            y < 32,
    ;
}

/// A position that names one record of a chunk.
pub trait ChunkOffset: Sized {
    /// The byte at which the record starts. An implementation that does
    /// not say where that is leaves it without a description.
    open spec fn offset(&self) -> usize {
        (vstd::pervasive::arbitrary::<spec_fn(Self) -> usize>())(*self)
    }

    /// The byte at which the record starts. The record lies inside the
    /// chunk's 65541 bytes.
    fn to_offset(self) -> (offset: usize)
        ensures
            offset == self.offset(),
            offset + 64 <= 65541,
    ;
}

/// The position of a block inside its chunk: column and row, both from 0
/// to 31.
#[derive(Debug, Clone, Copy)]
pub struct ChunkBlockCoord {
    x: u8,
    y: u8,
}

impl ChunkBlockCoord {
    #[verifier::type_invariant]
    spec fn in_chunk(self) -> bool {
        self.x < 32 && self.y < 32
    }

    /// Column and row.
    pub closed spec fn view(&self) -> (u8, u8) {
        (self.x, self.y)
    }

    /// The position with this column and row.
    pub closed spec fn at(x: u8, y: u8) -> Self {
        ChunkBlockCoord { x, y }
    }

    /// The position with a column and a row has that column and row.
    pub proof fn lemma_at(x: u8, y: u8)
        ensures
            Self::at(x, y)@ == (x, y),
    {
    }

    /// Accepts a column and a row below 32. The column is checked first.
    pub fn new(x: u8, y: u8) -> (r: BhResult<Self>)
        ensures
            match r {
                Ok(coord) => x < 32 && y < 32 && coord@ == (x, y) && coord == Self::at(x, y),
                Err(e) => if x >= 32 {
                    e == (BhError::CoordError { input: x as u64, limit: 32 })
                } else {
                    y >= 32 && e == (BhError::CoordError { input: y as u64, limit: 32 })
                },
            },
    {
        match check_coord_limit(x as u64, 32) {
            Ok(()) => {},
            Err(e) => {
                return Err(e);
            },
        }
        match check_coord_limit(y as u64, 32) {
            Ok(()) => {},
            Err(e) => {
                return Err(e);
            },
        }
        Ok(Self { x, y })
    }

    pub fn x(&self) -> (x: u8)
        ensures
            x == self@.0,
            x < 32,
    {
        proof {
            use_type_invariant(self);
        }
        self.x
    }

    pub fn y(&self) -> (y: u8)
        ensures
            y == self@.1,
            y < 32,
    {
        proof {
            use_type_invariant(self);
        }
        self.y
    }
}

impl ChunkOffset for ChunkBlockCoord {
    open spec fn offset(&self) -> usize {
        record_offset(self@.0, self@.1)
    }

    fn to_offset(self) -> (offset: usize) {
        proof {
            use_type_invariant(self);
            lemma_record_offset(self.x, self.y);
        }
        ((self.y as usize) << 5 | (self.x as usize)) << 6
    }
}

impl ChunkOffset for &ChunkBlockCoord {
    open spec fn offset(&self) -> usize {
        record_offset(self@.0, self@.1)
    }

    fn to_offset(self) -> (offset: usize) {
        proof {
            use_type_invariant(self);
            lemma_record_offset(self.x, self.y);
        }
        ((self.y as usize) << 5 | (self.x as usize)) << 6
    }
}

/// The position of a chunk in the world: any column, a row from 0 to 31.
///
/// The fields are open, so a value need not have passed [`ChunkCoord::new`].
#[derive(Debug, PartialEq, Eq, Hash, Clone, Copy, Structural)]
pub struct ChunkCoord {
    pub x: u64,
    pub y: u8,
}

/// What the fields of a chunk key read as, before the row is held against
/// its limit.
pub enum KeyReading {
    /// Both fields are numbers.
    Fields(u64, u8),
    /// The key has no `_`.
    MissingY,
    /// The key has more than one `_`.
    TooManyParts,
    /// The field before the `_` is no number that fits 64 bits.
    BadX(DecimalError),
    /// The field after the `_` is no number that fits 8 bits.
    BadY(DecimalError),
}

/// The place of the first `_` of a key at or after the place `from`, or
/// the key's length if there is none.
pub open spec fn first_underscore(s: Seq<u8>, from: int) -> int
    decreases s.len() - from,
{
    if from >= s.len() {
        s.len() as int
    } else if s[from] == 95 {
        from
    } else {
        first_underscore(s, from + 1)
    }
}

/// Reads a chunk key `<x>_<y>`: exactly two fields parted by one `_`, the
/// first a number of 64 bits, the second a number of 8 bits. The shape is
/// judged before the fields, and the first field before the second.
pub open spec fn read_chunk_key(s: Seq<u8>) -> KeyReading {
    let at = first_underscore(s, 0);
    if at >= s.len() {
        KeyReading::MissingY
    } else if first_underscore(s, at + 1) < s.len() {
        KeyReading::TooManyParts
    } else {
        match parse_unsigned(s.take(at), u64::MAX as nat) {
            Err(e) => KeyReading::BadX(e),
            Ok(x) => match parse_unsigned(s.skip(at + 1), u8::MAX as nat) {
                Err(e) => KeyReading::BadY(e),
                Ok(y) => KeyReading::Fields(x as u64, y as u8),
            },
        }
    }
}

/// The words for a number that could not be read.
pub open spec fn decimal_error_text(e: DecimalError) -> Seq<char> {
    match e {
        DecimalError::Empty => "cannot parse integer from empty string"@,
        DecimalError::InvalidDigit => "invalid digit found in string"@,
        DecimalError::Overflow => "number too large to fit in target type"@,
    }
}

/// The message of the parse error for a key that does not read as
/// `<x>_<y>`. Whatever is wrong with the key, the message names the key.
pub open spec fn key_error_text(reading: KeyReading, key: Seq<char>) -> Seq<char> {
    match reading {
        KeyReading::Fields(_, _) => Seq::empty(),
        KeyReading::MissingY => "Missing y coordinate in "@ + key,
        KeyReading::TooManyParts => "Too many parts in coordinate "@ + key
            + ". Expected 'x_y' format."@,
        KeyReading::BadX(e) => "Failed to parse x coordinate as u64 in "@ + key + ": "@
            + decimal_error_text(e),
        KeyReading::BadY(e) => "Failed to parse y coordinate as u8 in "@ + key + ": "@
            + decimal_error_text(e),
    }
}

/// Whether a message holds a key, character for character.
pub open spec fn names_key(message: Seq<char>, key: Seq<char>) -> bool {
    exists|at: int|
        0 <= at && at + key.len() <= message.len() && #[trigger] message.subrange(
            at,
            at + key.len(),
        ) == key
}

/// Every parse error names the key that it is about.
pub proof fn lemma_parse_error_names_key(reading: KeyReading, key: Seq<char>)
    requires
        !(reading is Fields),
    ensures
        names_key(key_error_text(reading, key), key),
{
    let message = key_error_text(reading, key);
    let at: int = match reading {
        KeyReading::MissingY => "Missing y coordinate in "@.len() as int,
        KeyReading::TooManyParts => "Too many parts in coordinate "@.len() as int,
        KeyReading::BadX(_) => "Failed to parse x coordinate as u64 in "@.len() as int,
        _ => "Failed to parse y coordinate as u8 in "@.len() as int,
    };
    assert(message.subrange(at, at + key.len()) == key);
}

fn decimal_error_str(e: DecimalError) -> (s: &'static str)
    ensures
        s@ == decimal_error_text(e),
{
    match e {
        DecimalError::Empty => "cannot parse integer from empty string",
        DecimalError::InvalidDigit => "invalid digit found in string",
        DecimalError::Overflow => "number too large to fit in target type",
    }
}

/// Finds the first `_` at or after `from`.
fn find_underscore(s: &[u8], from: usize) -> (at: usize)
    requires
        from <= s@.len(),
    ensures
        at == first_underscore(s@, from as int),
        from <= at <= s@.len(),
{
    let mut i: usize = from;
    while i < s.len() && s[i] != 95
        invariant
            from <= i <= s@.len(),
            first_underscore(s@, from as int) == first_underscore(s@, i as int),
        decreases s@.len() - i,
    {
        i += 1;
    }
    i
}

impl ChunkCoord {
    /// What [`ChunkCoord::new`] answers.
    pub open spec fn checked(x: u64, y: u8) -> BhResult<Self> {
        if y < 32 {
            Ok(ChunkCoord { x, y })
        } else {
            Err(BhError::CoordError { input: y as u64, limit: 32 })
        }
    }

    /// Accepts any column and a row below 32.
    pub fn new(x: u64, y: u8) -> (r: BhResult<Self>)
        ensures
            r == Self::checked(x, y),
    {
        match check_coord_limit(y as u64, 32) {
            Ok(()) => Ok(Self { x, y }),
            Err(e) => Err(e),
        }
    }

    /// Reads the key under which a chunk is stored, `<x>_<y>`.
    ///
    /// A key of another shape, or with a field that is no number, is a
    /// parse error whose message names the key, see [`key_error_text`];
    /// only a key that reads well is then held against the row's limit.
    pub fn from_str(s: &str) -> (r: BhResult<Self>)
        ensures
            match read_chunk_key(s.spec_bytes()) {
                KeyReading::Fields(x, y) => r == Self::checked(x, y),
                reading => r matches Err(BhError::ParseError(message)) && message@
                    == key_error_text(reading, s@),
            },
    {
        let bytes = s.as_bytes();
        let at = find_underscore(bytes, 0);
        if at >= bytes.len() {
            return Err(
                BhError::ParseError(String::from_str("Missing y coordinate in ").concat(s)),
            );
        }
        let end = find_underscore(bytes, at + 1);
        if end < bytes.len() {
            return Err(
                BhError::ParseError(
                    String::from_str("Too many parts in coordinate ").concat(s).concat(
                        ". Expected 'x_y' format.",
                    ),
                ),
            );
        }
        let x_field = vstd::slice::slice_subrange(bytes, 0, at);
        let y_field = vstd::slice::slice_subrange(bytes, at + 1, bytes.len());
        assert(x_field@ == bytes@.take(at as int));
        assert(y_field@ == bytes@.skip(at + 1));
        let x = match parse_bounded(x_field, u64::MAX) {
            Ok(x) => x,
            Err(e) => {
                return Err(
                    BhError::ParseError(
                        String::from_str("Failed to parse x coordinate as u64 in ").concat(
                            s,
                        ).concat(": ").concat(decimal_error_str(e)),
                    ),
                );
            },
        };
        let y = match parse_bounded(y_field, 255) {
            Ok(y) => y as u8,
            Err(e) => {
                return Err(
                    BhError::ParseError(
                        String::from_str("Failed to parse y coordinate as u8 in ").concat(
                            s,
                        ).concat(": ").concat(decimal_error_str(e)),
                    ),
                );
            },
        };
        Self::new(x, y)
    }
}

/// The position of a block in the world: any column, a row from 0 to 1023.
#[derive(Debug, Clone, Copy, PartialEq, Eq, Structural)]
pub struct BlockCoord {
    x: u64,
    y: u16,
}

/// The chunk that holds the block at column `x`, row `y` of the world.
pub open spec fn chunk_of(x: u64, y: u16) -> ChunkCoord {
    ChunkCoord { x: x >> 5, y: (y >> 5) as u8 }
}

/// The column and row, inside its chunk, of the block at column `x`, row
/// `y` of the world.
pub open spec fn within_chunk(x: u64, y: u16) -> (u8, u8) {
    ((x & 31) as u8, (y & 31) as u8)
}

/// A block's place in the world is its chunk's place times 32 plus its own
/// place in the chunk, on both axes; and for a row below 1024 both parts
/// are within their limits.
pub proof fn lemma_decompose_recombine(x: u64, y: u16)
    requires
        y < 1024,
    ensures
        chunk_of(x, y).x * 32 + within_chunk(x, y).0 == x,
        chunk_of(x, y).y * 32 + within_chunk(x, y).1 == y,
        chunk_of(x, y).y < 32,
        within_chunk(x, y).0 < 32,
        within_chunk(x, y).1 < 32,
{
    assert((x >> 5) * 32 + ((x & 31) as u8) == x && ((x & 31) as u8) < 32) by (bit_vector);
    assert(((y >> 5) as u8) * 32 + ((y & 31) as u8) == y && ((y >> 5) as u8) < 32 && ((y & 31) as u8)
        < 32) by (bit_vector)
        requires
            y < 1024,
    ;
}

impl BlockCoord {
    #[verifier::type_invariant]
    spec fn in_world(self) -> bool {
        self.y < 1024
    }

    /// Column and row.
    pub closed spec fn view(&self) -> (u64, u16) {
        (self.x, self.y)
    }

    /// Two positions with the same column and row are the same position.
    pub proof fn lemma_view_tells(a: Option<BlockCoord>, b: Option<BlockCoord>)
        ensures
            a == b <==> match (a, b) {
                (Some(a), Some(b)) => a@ == b@,
                (None, None) => true,
                _ => false,
            },
    {
    }

    /// Accepts any column and a row below 1024.
    pub fn new(x: u64, y: u16) -> (r: BhResult<Self>)
        ensures
            match r {
                Ok(coord) => y < 1024 && coord@ == (x, y),
                Err(e) => y >= 1024 && e == (BhError::CoordError { input: y as u64, limit: 1024 }),
            },
    {
        match check_coord_limit(y as u64, 1024) {
            Ok(()) => Ok(Self { x, y }),
            Err(e) => Err(e),
        }
    }

    pub fn x(&self) -> (x: u64)
        ensures
            x == self@.0,
    {
        self.x
    }

    pub fn y(&self) -> (y: u16)
        ensures
            y == self@.1,
            y < 1024,
    {
        proof {
            use_type_invariant(self);
        }
        self.y
    }

    /// The chunk that holds the block.
    pub fn chunk(self) -> (chunk: ChunkCoord)
        ensures
            chunk == chunk_of(self@.0, self@.1),
    {
        proof {
            use_type_invariant(self);
            lemma_decompose_recombine(self.x, self.y);
        }
        ChunkCoord { x: self.x >> 5, y: (self.y >> 5) as u8 }
    }

    /// The block's place inside its chunk.
    pub fn within(self) -> (within: ChunkBlockCoord)
        ensures
            within@ == within_chunk(self@.0, self@.1),
            within == ChunkBlockCoord::at(within@.0, within@.1),
    {
        proof {
            use_type_invariant(self);
            lemma_decompose_recombine(self.x, self.y);
        }
        ChunkBlockCoord { x: (self.x & 31) as u8, y: (self.y & 31) as u8 }
    }

    /// Parts the position into the chunk and the place inside it. This
    /// cannot fail, and the two parts give the position back: see
    /// [`lemma_decompose_recombine`].
    pub fn decompose(self) -> (parts: (ChunkCoord, ChunkBlockCoord))
        ensures
            parts.0 == chunk_of(self@.0, self@.1),
            parts.1@ == within_chunk(self@.0, self@.1),
            parts.0.x * 32 + parts.1@.0 == self@.0,
            parts.0.y * 32 + parts.1@.1 == self@.1,
            parts.0.y < 32,
            parts.1@.0 < 32,
            parts.1@.1 < 32,
    {
        proof {
            use_type_invariant(self);
            lemma_decompose_recombine(self.x, self.y);
        }
        (self.chunk(), self.within())
    }
}

impl From<BlockCoord> for ChunkCoord {
    fn from(coord: BlockCoord) -> (chunk: ChunkCoord) {
        coord.chunk()
    }
}

impl vstd::std_specs::convert::FromSpecImpl<BlockCoord> for ChunkCoord {
    open spec fn obeys_from_spec() -> bool {
        true
    }

    open spec fn from_spec(coord: BlockCoord) -> ChunkCoord {
        chunk_of(coord@.0, coord@.1)
    }
}

impl From<BlockCoord> for ChunkBlockCoord {
    fn from(coord: BlockCoord) -> (within: ChunkBlockCoord) {
        coord.within()
    }
}

impl vstd::std_specs::convert::FromSpecImpl<BlockCoord> for ChunkBlockCoord {
    open spec fn obeys_from_spec() -> bool {
        true
    }

    open spec fn from_spec(coord: BlockCoord) -> ChunkBlockCoord {
        ChunkBlockCoord::at(within_chunk(coord@.0, coord@.1).0, within_chunk(coord@.0, coord@.1).1)
    }
}

impl ChunkOffset for BlockCoord {
    open spec fn offset(&self) -> usize {
        record_offset(within_chunk(self@.0, self@.1).0, within_chunk(self@.0, self@.1).1)
    }

    fn to_offset(self) -> (offset: usize) {
        self.within().to_offset()
    }
}

} // verus!
