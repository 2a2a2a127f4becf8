use flate2::read::GzDecoder;
use std::collections::HashSet;
use std::collections::VecDeque;
use std::io::Read;
use vstd::prelude::*;
use vstd::string::StringSliceAdditionalSpecFns;

verus! {

/// A number of 32 bits as four bytes, the lowest first.
pub open spec fn le_bytes(value: u32) -> Seq<u8> {
    seq![
        (value % 256) as u8,
        (value / 256 % 256) as u8,
        (value / 65536 % 256) as u8,
        (value / 16777216) as u8,
    ]
}

/// The number that four bytes stand for, the lowest first.
pub open spec fn from_le_bytes(bytes: Seq<u8>) -> u32 {
    (bytes[0] + bytes[1] * 256 + bytes[2] * 65536 + bytes[3] * 16777216) as u32
}

/// The bytes of a number stand for the number.
pub proof fn lemma_le_bytes_round_trip(value: u32)
    ensures
        from_le_bytes(le_bytes(value)) == value,
{
}

/// The request that asks the server for one chunk, to be created if it is
/// not there yet: a 3, the chunk's index, a 1, and three zero bytes.
pub open spec fn macro_block_request(macro_index: u32) -> Seq<u8> {
    seq![3u8] + le_bytes(macro_index) + seq![1u8, 0u8, 0u8, 0u8]
}

pub fn new_client_macro_block_request(macro_index: u32) -> (payload: [u8; 9])
    ensures
        payload@ == macro_block_request(macro_index),
{
    let mut payload = [0u8;9];
    assert(macro_index & 0xff == macro_index % 256 && (macro_index >> 8) & 0xff == macro_index
        / 256 % 256 && (macro_index >> 16) & 0xff == macro_index / 65536 % 256 && (macro_index
        >> 24) == macro_index / 16777216 && (macro_index >> 24) < 256) by (bit_vector);
    payload[0] = 3;
    payload[1] = (macro_index & 0xff) as u8;
    payload[2] = ((macro_index >> 8) & 0xff) as u8;
    payload[3] = ((macro_index >> 16) & 0xff) as u8;
    payload[4] = (macro_index >> 24) as u8;
    payload[5] = 1;
    assert(payload@ =~= macro_block_request(macro_index));
    payload
}

/// What the server says, told by the first byte of its message.
#[derive(Debug, Clone, Copy, PartialEq, Eq, Structural)]
pub enum ServerMessage {
    /// `#`: the id of the world. The client answers with its own
    /// description.
    WorldId,
    /// 1: the description of the world, gzip-compressed, after the first
    /// byte.
    WorldInfo,
    /// 4: a chunk is there. Its index follows in four bytes.
    ChunkDone(u32),
    /// Anything else, the empty message too.
    Other,
}

/// The message that bytes from the server are.
pub open spec fn server_message(data: Seq<u8>) -> ServerMessage {
    if data.len() == 0 {
        ServerMessage::Other
    } else if data[0] == 35 {
        ServerMessage::WorldId
    } else if data[0] == 1 {
        ServerMessage::WorldInfo
    } else if data[0] == 4 {
        ServerMessage::ChunkDone(from_le_bytes(data.subrange(1, 5)))
    } else {
        ServerMessage::Other
    }
}

/// Tells what a message of the server is. A message that announces a
/// chunk has the four bytes of the chunk's index.
pub fn read_server_message(data: &[u8]) -> (message: ServerMessage)
    requires
        data@.len() > 0 && data@[0] == 4 ==> data@.len() >= 5,
    ensures
        message == server_message(data@),
{
    if data.len() == 0 {
        return ServerMessage::Other;
    }
    let kind: u8 = data[0];
    if kind == 35 {
        ServerMessage::WorldId
    } else if kind == 1 {
        ServerMessage::WorldInfo
    } else if kind == 4 {
        let b0: u32 = data[1] as u32;
        let b1: u32 = data[2] as u32;
        let b2: u32 = data[3] as u32;
        let b3: u32 = data[4] as u32;
        ServerMessage::ChunkDone(b0 + b1 * 256 + b2 * 65536 + b3 * 16777216)
    } else {
        ServerMessage::Other
    }
}

/// As [`read_server_message`], for any bytes: a message that announces a
/// chunk and is too short to name it gives nothing.
pub fn try_read_server_message(data: &[u8]) -> (message: Option<ServerMessage>)
    ensures
        match message {
            Some(message) => message == server_message(data@) && !(data@.len() > 0 && data@[0] == 4
                && data@.len() < 5),
            None => data@.len() > 0 && data@[0] == 4 && data@.len() < 5,
        },
{
    if data.len() > 0 && data[0] == 4 && data.len() < 5 {
        None
    } else {
        Some(read_server_message(data))
    }
}

/// The text that a gzip stream decompresses to, if the stream is whole and
/// what it holds is UTF-8.
pub uninterp spec fn gunzip_text(compressed: Seq<u8>) -> Option<Seq<char>>;

/// The unsigned number under a key of the dictionary that a property list
/// holds, if the document is a property list, holds a dictionary, and has
/// such a number under the key.
pub uninterp spec fn plist_unsigned(document: Seq<u8>, key: Seq<char>) -> Option<u64>;

/// `flate2::read::GzDecoder::new` on the compressed bytes, then
/// `read_to_string`: the whole stream as text. A stream that is damaged
/// or cut short, or that holds no UTF-8, is an error.
#[verifier::external_body]
fn read_gzip_text(compressed: &[u8]) -> (r: Result<String, std::io::Error>)
    ensures
        match r {
            Ok(text) => gunzip_text(compressed@) == Some(text@),
            Err(_) => gunzip_text(compressed@) is None,
        },
{
    let mut text = String::new();
    GzDecoder::new(compressed).read_to_string(&mut text)?;
    Ok(text)
}

/// `plist::from_bytes` to a `plist::Dictionary`, then `Dictionary::get`
/// and `Value::as_unsigned_integer`: the number under the key, or nothing
/// where any of the three gives nothing.
#[verifier::external_body]
fn read_plist_unsigned(document: &[u8], key: &str) -> (number: Option<u64>)
    ensures
        number == plist_unsigned(document@, key@),
{
    let dictionary: plist::Dictionary = plist::from_bytes(document).ok()?;
    dictionary.get(key)?.as_unsigned_integer()
}

/// The key of the world's width in the description of a world.
pub const WORLD_WIDTH_KEY: &'static str = "worldWidthMacro";

/// The width of the world that a description names: the description is a
/// gzip-compressed property list, the width is the number under
/// [`WORLD_WIDTH_KEY`], cut to 32 bits.
pub open spec fn described_width(payload: Seq<u8>) -> Option<u32> {
    match gunzip_text(payload) {
        Some(text) => match plist_unsigned(vstd::utf8::encode_utf8(text), WORLD_WIDTH_KEY@) {
            Some(width) => Some((width % 0x1_0000_0000) as u32),
            None => None,
        },
        None => None,
    }
}

/// What follows once the description has been decompressed and read: the
/// width, cut to 32 bits, if both steps gave something.
pub open spec fn width_from(text: Option<Seq<char>>, number: Option<u64>) -> Option<u32> {
    match (text, number) {
        (Some(_), Some(width)) => Some((width % 0x1_0000_0000) as u32),
        _ => None,
    }
}

/// The width that the readings of a description give: see [`width_from`].
pub fn width_of_readings(text: Option<&str>, number: Option<u64>) -> (width: Option<u32>)
    ensures
        width == width_from(
            match text {
                Some(text) => Some(text@),
                None => None,
            },
            number,
        ),
{
    match (text, number) {
        (Some(_), Some(number)) => {
            assert(number & 0xffff_ffff == number % 0x1_0000_0000) by (bit_vector);
            Some((number & 0xffff_ffff) as u32)
        },
        _ => None,
    }
}

/// Reads the width of the world from the description that the server
/// sent, the bytes after the first byte of its message: see
/// [`described_width`].
pub fn read_world_width(payload: &[u8]) -> (width: Option<u32>)
    ensures
        width == described_width(payload@),
{
    match read_gzip_text(payload) {
        Ok(text) => {
            let number = read_plist_unsigned(text.as_str().as_bytes(), WORLD_WIDTH_KEY);
            width_of_readings(Some(text.as_str()), number)
        },
        Err(_) => None,
    }
}

/// The widest world whose chunk indices fit 32 bits.
pub const MAX_WORLD_WIDTH_MACRO: u32 = 0x0800_0000;

/// The indices of all chunks of a world of this width, in the order in
/// which they are asked for: column after column, each from row 0 to row
/// 31. The chunk at column `x`, row `y` has the index `y * width + x`.
pub open spec fn generation_order(width: u32) -> Seq<u32> {
    Seq::new((width * 32) as nat, |i: int| ((i % 32) * width + i / 32) as u32)
}

/// The place of a chunk among those that were received: its column and
/// its row as one number.
pub open spec fn received_key(column: u32, row: u32) -> u64 {
    (column as u64 * 0x1_0000_0000 + row as u64) as u64
}

/// The client's book of a run that has every chunk of a world generated:
/// the width of the world, the chunks still to be asked for, and the
/// chunks that were received.
pub struct GenerationPlan {
    world_width_macro: u32,
    chunks_to_generate: VecDeque<u32>,
    received_chunks: HashSet<u64>,
}

/// What the client does after a chunk has come.
#[derive(Debug, Clone, Copy, PartialEq, Eq, Structural)]
pub struct ChunkStep {
    /// The column of the chunk.
    pub column: u32,
    /// The row of the chunk.
    pub row: u32,
    /// The chunk had not come before.
    pub first_time: bool,
    /// Every chunk of the world has come: the run is over.
    pub finished: bool,
    /// The chunk to ask for next, unless the run is over or nothing is
    /// left to ask for.
    pub request: Option<u32>,
}

impl GenerationPlan {
    /// The width of the world, in chunks.
    pub closed spec fn width(&self) -> u32 {
        self.world_width_macro
    }

    /// The indices of the chunks still to be asked for, the next one
    /// first.
    pub closed spec fn pending(&self) -> Seq<u32> {
        self.chunks_to_generate@
    }

    /// The chunks that were received, each as [`received_key`] of its
    /// column and row.
    pub closed spec fn received(&self) -> Set<u64> {
        self.received_chunks@
    }

    /// A run before the server has described its world: the width is
    /// taken to be 512, nothing is asked for, nothing has come.
    pub fn new() -> (plan: Self)
        ensures
            plan.width() == 512,
            plan.pending() == Seq::<u32>::empty(),
            plan.received() == Set::<u64>::empty(),
    {
        Self {
            world_width_macro: 512,
            chunks_to_generate: VecDeque::new(),
            received_chunks: HashSet::new(),
        }
    }

    /// Takes in the width of the world as the server described it. All
    /// chunks of the world join those to be asked for, in
    /// [`generation_order`], and the first chunk in line is asked for.
    pub fn on_world_info(&mut self, world_width_macro: u32) -> (request: Option<u32>)
        requires
            world_width_macro <= MAX_WORLD_WIDTH_MACRO,
        ensures
            final(self).width() == world_width_macro,
            final(self).received() == old(self).received(),
            ({
                let line = old(self).pending() + generation_order(world_width_macro);
                if line.len() == 0 {
                    request is None && final(self).pending() == line
                } else {
                    request == Some(line[0]) && final(self).pending() == line.drop_first()
                }
            }),
    {
        self.world_width_macro = world_width_macro;
        let mut x: u32 = 0;
        while x < world_width_macro
            invariant
                x <= world_width_macro <= MAX_WORLD_WIDTH_MACRO,
                self.world_width_macro == world_width_macro,
                self.received_chunks == old(self).received_chunks,
                self.chunks_to_generate@ == old(self).chunks_to_generate@ + generation_order(
                    world_width_macro,
                ).take(x * 32),
            decreases world_width_macro - x,
        {
            let mut y: u32 = 0;
            while y < 32
                invariant
                    y <= 32,
                    x < world_width_macro <= MAX_WORLD_WIDTH_MACRO,
                    self.world_width_macro == world_width_macro,
                    self.received_chunks == old(self).received_chunks,
                    self.chunks_to_generate@ == old(self).chunks_to_generate@
                        + generation_order(world_width_macro).take(x * 32 + y),
                decreases 32 - y,
            {
                assert(y * world_width_macro + x <= u32::MAX) by (nonlinear_arith)
                    requires
                        y < 32,
                        x < world_width_macro <= 0x0800_0000,
                ;
                let index = y * world_width_macro + x;
                let ghost order = generation_order(world_width_macro);
                assert(x * 32 + y < world_width_macro * 32) by (nonlinear_arith)
                    requires
                        y < 32,
                        x < world_width_macro,
                ;
                assert(order[x * 32 + y] == index) by {
                    assert((x * 32 + y) % 32 == y && (x * 32 + y) / 32 == x) by (nonlinear_arith)
                        requires
                            0 <= y < 32,
                            0 <= x,
                    ;
                }
                assert(order.take(x * 32 + y + 1) == order.take(x * 32 + y).push(index));
                self.chunks_to_generate.push_back(index);
                y += 1;
            }
            x += 1;
        }
        assert(generation_order(world_width_macro).take(world_width_macro * 32)
            == generation_order(world_width_macro));
        self.chunks_to_generate.pop_front()
    }

    /// Takes in that the chunk with this index has come. The chunk is at
    /// column `index % width`, row `index / width`. When as many chunks
    /// have come as the world has, the run is over; else the next chunk in
    /// line is asked for.
    pub fn on_chunk_done(&mut self, macro_index: u32) -> (step: ChunkStep)
        requires
            old(self).width() > 0,
        ensures
            final(self).width() == old(self).width(),
            step.column == macro_index % old(self).width(),
            step.row == macro_index / old(self).width(),
            final(self).received() == old(self).received().insert(
                received_key(step.column, step.row),
            ),
            step.first_time == !old(self).received().contains(
                received_key(step.column, step.row),
            ),
            step.finished == (final(self).received().len() == old(self).width() * 32),
            if step.finished || old(self).pending().len() == 0 {
                step.request is None && final(self).pending() == old(self).pending()
            } else {
                step.request == Some(old(self).pending()[0]) && final(self).pending() == old(
                    self,
                ).pending().drop_first()
            },
    {
        broadcast use vstd::std_specs::hash::group_hash_axioms;

        let width = self.world_width_macro;
        let column = macro_index % width;
        let row = macro_index / width;
        let key = (column as u64) * 0x1_0000_0000 + (row as u64);
        let first_time = self.received_chunks.insert(key);
        let all = (width as u64) * 32;
        let finished = self.received_chunks.len() as u64 == all;
        let request = if finished {
            None
        } else {
            self.chunks_to_generate.pop_front()
        };
        ChunkStep { column, row, first_time, finished, request }
    }
}

} // verus!
