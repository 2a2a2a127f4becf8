use crate::block::{Block, BlockView};
use crate::block_type::{BlockContent, BlockType};
use crate::chunk::{record_at, Chunk};
use crate::coords::{lemma_record_offset, ChunkBlockCoord, ChunkCoord, ChunkOffset};
use crate::error::BhResult;
use vstd::prelude::*;

verus! {

/// How a block is drawn: its type, except that a block with something in
/// it is a type of its own. 0 is a block that cannot be told, 2 is air.
#[derive(Debug, Copy, Clone, PartialEq, Eq, Structural)]
pub struct VoxelType(pub u16);

/// The voxels that one chunk takes: three layers for each of its blocks.
pub const NUM_VOXEL_PER_CHUNK: usize = 3072;

/// The voxel of the foreground of a record with these bytes for type and
/// content.
///
/// Air and snow show as themselves whatever is in them, and so does any
/// type with nothing in it. Dirt, grass and snowy dirt with clay or flint,
/// stone with an ore, and limestone with oil have voxels of their own,
/// from 78 on. Every other pair, and every byte that names nothing, is 0.
pub open spec fn foreground_voxel(fg: u8, content: u8) -> u16 {
    match (BlockType::decode(fg), BlockContent::decode(content)) {
        (Some(BlockType::Air), Some(_)) => 2,
        (Some(BlockType::Snow), Some(_)) => 5,
        (Some(kind), Some(BlockContent::Empty)) => kind.code() as u16,
        (Some(BlockType::Dirt), Some(BlockContent::Clay)) => 78,
        (Some(BlockType::Dirt), Some(BlockContent::Flint)) => 79,
        (Some(BlockType::GrassDirt), Some(BlockContent::Clay)) => 80,
        (Some(BlockType::GrassDirt), Some(BlockContent::Flint)) => 81,
        (Some(BlockType::SnowDirt), Some(BlockContent::Clay)) => 82,
        (Some(BlockType::SnowDirt), Some(BlockContent::Flint)) => 83,
        (Some(BlockType::Stone), Some(BlockContent::CopperOre)) => 84,
        (Some(BlockType::Stone), Some(BlockContent::TinOre)) => 85,
        (Some(BlockType::Stone), Some(BlockContent::IronOre)) => 86,
        (Some(BlockType::Stone), Some(BlockContent::Coal)) => 87,
        (Some(BlockType::Stone), Some(BlockContent::GoldNuggets)) => 88,
        (Some(BlockType::Stone), Some(BlockContent::PlatinumOre)) => 89,
        (Some(BlockType::Stone), Some(BlockContent::TitaniumOre)) => 90,
        (Some(BlockType::Limestone), Some(BlockContent::Oil)) => 91,
        _ => 0,
    }
}

/// The voxel of the middle layer of a record with this content byte: air
/// where the block holds nothing, 0 for everything else.
pub open spec fn middle_voxel(content: u8) -> u16 {
    match BlockContent::decode(content) {
        Some(BlockContent::Empty) => 2,
        _ => 0,
    }
}

/// The voxel of the background of a record with this byte for its type:
/// the type's own byte, or 0 where the byte names no type.
pub open spec fn background_voxel(bg: u8) -> u16 {
    match BlockType::decode(bg) {
        Some(kind) => kind.code() as u16,
        None => 0,
    }
}

/// The three voxels of a record, from the back to the front. Where the
/// foreground is air the middle layer shows what the block holds, else it
/// repeats the foreground.
pub open spec fn record_voxels(record: Seq<u8>) -> Seq<VoxelType> {
    let fg = foreground_voxel(record[0], record[3]);
    let mg = if fg == 2 {
        middle_voxel(record[3])
    } else {
        fg
    };
    seq![VoxelType(background_voxel(record[1])), VoxelType(mg), VoxelType(fg)]
}

/// The voxels of the first `n` records of a chunk, record after record in
/// the order of the chunk's bytes.
pub open spec fn chunk_voxels_prefix(content: Seq<u8>, n: int) -> Seq<VoxelType>
    decreases n,
{
    if n <= 0 {
        seq![]
    } else {
        chunk_voxels_prefix(content, n - 1) + record_voxels(record_at(content, (n - 1) * 64))
    }
}

/// The voxels of a chunk: 3072 of them.
pub open spec fn chunk_voxels(content: Seq<u8>) -> Seq<VoxelType> {
    chunk_voxels_prefix(content, 1024)
}

/// The voxels of `n` records are `3 * n` voxels.
pub proof fn lemma_chunk_voxels_len(content: Seq<u8>, n: int)
    requires
        0 <= n,
    ensures
        chunk_voxels_prefix(content, n).len() == 3 * n,
    decreases n,
{
    if n > 0 {
        lemma_chunk_voxels_len(content, n - 1);
    }
}

/// Where the voxels of a chunk start among the voxels of the world:
/// column after column, 32 chunks each.
pub open spec fn voxel_offset(coord: ChunkCoord) -> int {
    (coord.x * 32 + coord.y) * 3072
}

impl From<u16> for VoxelType {
    fn from(value: u16) -> (voxel: VoxelType) {
        Self(value)
    }
}

impl vstd::std_specs::convert::FromSpecImpl<u16> for VoxelType {
    open spec fn obeys_from_spec() -> bool {
        true
    }

    open spec fn from_spec(value: u16) -> VoxelType {
        VoxelType(value)
    }
}

impl VoxelType {
    /// Air.
    pub fn air() -> (voxel: Self)
        ensures
            voxel == VoxelType(2),
    {
        Self(2)
    }

    /// A block that cannot be told.
    pub fn unknown() -> (voxel: Self)
        ensures
            voxel == VoxelType(0),
    {
        Self(0)
    }

    fn fg_from_block_inner<'b>(block: Block<'b>) -> (r: BhResult<Self>)
        ensures
            match r {
                Ok(voxel) => voxel.0 == foreground_voxel(block@[0], block@[3]),
                Err(_) => foreground_voxel(block@[0], block@[3]) == 0,
            },
    {
        let kind = match block.fg() {
            Ok(kind) => kind,
            Err(e) => {
                return Err(e);
            },
        };
        let content = match block.content() {
            Ok(content) => content,
            Err(e) => {
                return Err(e);
            },
        };
        Ok(
            Self(
                match (kind, content) {
                    (BlockType::Air, _) => 2,
                    (BlockType::Snow, _) => 5,
                    (kind, BlockContent::Empty) => kind.to_u8() as u16,
                    (BlockType::Dirt, BlockContent::Clay) => 78,
                    (BlockType::Dirt, BlockContent::Flint) => 79,
                    (BlockType::GrassDirt, BlockContent::Clay) => 80,
                    (BlockType::GrassDirt, BlockContent::Flint) => 81,
                    (BlockType::SnowDirt, BlockContent::Clay) => 82,
                    (BlockType::SnowDirt, BlockContent::Flint) => 83,
                    (BlockType::Stone, BlockContent::CopperOre) => 84,
                    (BlockType::Stone, BlockContent::TinOre) => 85,
                    (BlockType::Stone, BlockContent::IronOre) => 86,
                    (BlockType::Stone, BlockContent::Coal) => 87,
                    (BlockType::Stone, BlockContent::GoldNuggets) => 88,
                    (BlockType::Stone, BlockContent::PlatinumOre) => 89,
                    (BlockType::Stone, BlockContent::TitaniumOre) => 90,
                    (BlockType::Limestone, BlockContent::Oil) => 91,
                    _ => 0,
                },
            ),
        )
    }

    /// The voxel of a block's foreground: see [`foreground_voxel`].
    pub fn fg_from_block<'b>(block: Block<'b>) -> (voxel: Self)
        ensures
            voxel.0 == foreground_voxel(block@[0], block@[3]),
    {
        match Self::fg_from_block_inner(block) {
            Ok(voxel) => voxel,
            Err(_) => Self::unknown(),
        }
    }

    fn mg_from_block_inner<'b>(block: Block<'b>) -> (r: BhResult<Self>)
        ensures
            match r {
                Ok(voxel) => voxel.0 == middle_voxel(block@[3]),
                Err(_) => middle_voxel(block@[3]) == 0,
            },
    {
        match block.content() {
            Ok(BlockContent::Empty) => Ok(Self(2)),
            Ok(_) => Ok(Self(0)),
            Err(e) => Err(e),
        }
    }

    /// The voxel of a block's middle layer: see [`middle_voxel`].
    pub fn mg_from_block<'b>(block: Block<'b>) -> (voxel: Self)
        ensures
            voxel.0 == middle_voxel(block@[3]),
    {
        match Self::mg_from_block_inner(block) {
            Ok(voxel) => voxel,
            Err(_) => Self::unknown(),
        }
    }

    fn bg_from_block_inner<'b>(block: Block<'b>) -> (r: BhResult<Self>)
        ensures
            match r {
                Ok(voxel) => voxel.0 == background_voxel(block@[1]),
                Err(_) => background_voxel(block@[1]) == 0,
            },
    {
        match block.bg() {
            Ok(kind) => Ok(Self(kind.to_u8() as u16)),
            Err(e) => Err(e),
        }
    }

    /// The voxel of a block's background: see [`background_voxel`].
    pub fn bg_from_block<'b>(block: Block<'b>) -> (voxel: Self)
        ensures
            voxel.0 == background_voxel(block@[1]),
    {
        match Self::bg_from_block_inner(block) {
            Ok(voxel) => voxel,
            Err(_) => Self::unknown(),
        }
    }

    /// The voxels of a whole chunk, as they are handed to the renderer:
    /// see [`chunk_voxels`].
    pub fn of_chunk(chunk: &Chunk) -> (voxels: Vec<VoxelType>)
        ensures
            voxels@ == chunk_voxels(chunk@),
            voxels@.len() == NUM_VOXEL_PER_CHUNK,
    {
        let mut voxels: Vec<VoxelType> = Vec::new();
        let mut y: u8 = 0;
        while y < 32
            invariant
                y <= 32,
                voxels@ == chunk_voxels_prefix(chunk@, y * 32),
            decreases 32 - y,
        {
            let mut x: u8 = 0;
            while x < 32
                invariant
                    x <= 32,
                    y < 32,
                    voxels@ == chunk_voxels_prefix(chunk@, y * 32 + x),
                decreases 32 - x,
            {
                let coord = match ChunkBlockCoord::new(x, y) {
                    Ok(coord) => coord,
                    Err(_) => vstd::pervasive::unreached(),
                };
                proof {
                    lemma_record_offset(x, y);
                }
                let block = chunk.block_at(coord);
                let fg_type = VoxelType::fg_from_block(block);
                let mg_type = if fg_type.0 == 2 {
                    VoxelType::mg_from_block(block)
                } else {
                    fg_type
                };
                let bg_type = VoxelType::bg_from_block(block);
                voxels.push(bg_type);
                voxels.push(mg_type);
                voxels.push(fg_type);
                assert(voxels@ == chunk_voxels_prefix(chunk@, y * 32 + x) + record_voxels(
                    block@,
                ));
                x += 1;
            }
            y += 1;
        }
        proof {
            lemma_chunk_voxels_len(chunk@, 1024);
        }
        voxels
    }

    /// Where the voxels of a chunk start among those of the world, or
    /// nothing where that place is beyond 64 bits.
    pub fn offset_of_chunk(coord: ChunkCoord) -> (offset: Option<u64>)
        ensures
            match offset {
                Some(offset) => offset == voxel_offset(coord),
                None => voxel_offset(coord) > u64::MAX,
            },
    {
        let chunks = match coord.x.checked_mul(32) {
            Some(columns) => match columns.checked_add(coord.y as u64) {
                Some(chunks) => chunks,
                None => {
                    return None;
                },
            },
            None => {
                return None;
            },
        };
        chunks.checked_mul(3072)
    }
}

} // verus!
