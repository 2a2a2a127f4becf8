//! Read access to a voxel world save: coordinates, block records, chunks that
//! are decompressed on first use, and the tables that hold them; and, for the
//! programs that show a world or have one generated, the voxels of a chunk,
//! the state of the pointer and of the frame counter, and the client's side
//! of the talk with the game server.

pub mod block;
pub mod block_type;
pub mod chunk;
pub mod chunk_gen;
pub mod chunks;
pub mod coords;
pub mod decimal;
pub mod error;
pub mod fps_counter;
pub mod gzip;
pub mod input;
pub mod selected_block;
pub mod voxel;
pub mod world;

pub use block::{Block, BlockMut, BlockView, BlockViewMut, RecordByte};
pub use block_type::{BlockContent, BlockType};
pub use chunk::Chunk;
pub use chunks::Chunks;
pub use coords::{BlockCoord, ChunkBlockCoord, ChunkCoord, ChunkOffset};
pub use error::{BhError, BhResult};
pub use fps_counter::FpsCounter;
pub use gzip::{FromCompressedGzip, Gzip};
pub use input::{EventResponse, Input, PointerEvent};
pub use selected_block::SelectedBlock;
pub use voxel::VoxelType;
pub use world::{BlobMap, WorldDb, WorldDbMain, WorldV2};
