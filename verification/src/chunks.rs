use crate::block::{Block, BlockMut};
use crate::chunk::{record_at, with_record, Chunk};
use crate::coords::{
    chunk_of, read_chunk_key, record_offset, within_chunk, BlockCoord, ChunkCoord, ChunkOffset,
    KeyReading,
};
use crate::gzip::Gzip;
use std::collections::hash_map::Entry;
use std::collections::HashMap;
use vstd::prelude::*;
use vstd::std_specs::iter::IteratorSpec;

verus! {

/// The chunks of a world, each under its coordinate, each compressed until
/// it is first asked for.
///
/// The table holds a chunk under the number of its coordinate, see
/// [`table_key`]; a number that stands for no coordinate would hold no
/// chunk of the store.
#[derive(Debug)]
pub struct Chunks {
    table: HashMap<u128, Gzip<Chunk>>,
}

/// The number under which the table holds a chunk: no two coordinates
/// share one.
pub open spec fn table_key(coord: ChunkCoord) -> u128 {
    (coord.x * 256 + coord.y) as u128
}

/// The coordinate that the key of a record names, if it names one: the key
/// reads as `<x>_<y>` and the row is below 32.
pub open spec fn key_coord(key: Seq<char>) -> Option<ChunkCoord> {
    match read_chunk_key(vstd::utf8::encode_utf8(key)) {
        KeyReading::Fields(x, y) => if y < 32 {
            Some(ChunkCoord { x, y })
        } else {
            None
        },
        _ => None,
    }
}

/// The store that a table of records gives. A record whose key names no
/// coordinate is passed over; of two records for one coordinate the later
/// one stays. Every chunk starts out compressed.
pub open spec fn store_of(records: Seq<(String, Vec<u8>)>) -> Map<ChunkCoord, Gzip<Chunk>>
    decreases records.len(),
{
    if records.len() == 0 {
        Map::empty()
    } else {
        let earlier = store_of(records.drop_last());
        match key_coord(records.last().0@) {
            Some(coord) => earlier.insert(coord, Gzip::Compressed(records.last().1)),
            None => earlier,
        }
    }
}

fn key_of(coord: ChunkCoord) -> (key: u128)
    ensures
        key == table_key(coord),
{
    (coord.x as u128) * 256 + (coord.y as u128)
}

fn coord_of(key: u128) -> (coord: ChunkCoord)
    requires
        key < 0x1_00_0000_0000_0000_0000,
    ensures
        table_key(coord) == key,
{
    ChunkCoord { x: (key / 256) as u64, y: (key % 256) as u8 }
}

impl Chunks {
    /// The chunks by coordinate.
    pub closed spec fn view(&self) -> Map<ChunkCoord, Gzip<Chunk>> {
        Map::new(
            |coord: ChunkCoord| self.table@.contains_key(table_key(coord)),
            |coord: ChunkCoord| self.table@[table_key(coord)],
        )
    }

    /// Builds the store from the records of the table of chunks: the key
    /// of each is the chunk's coordinate as text, the value its compressed
    /// bytes.
    pub fn from_db(records: Vec<(String, Vec<u8>)>) -> (store: Self)
        ensures
            store@ == store_of(records@),
    {
        broadcast use vstd::std_specs::hash::group_hash_axioms;

        let mut store = Chunks { table: HashMap::new() };
        let ghost all = records@;
        for record in it: records.into_iter()
            invariant
                it.seq() == all,
                store@ == store_of(all.take(it.index() as int)),
        {
            let (key, value) = record;
            assert(all.take(it.index() + 1).drop_last() == all.take(it.index() as int));
            match ChunkCoord::from_str(key.as_str()) {
                Ok(coord) => {
                    store.table.insert(key_of(coord), Gzip::from_compressed(value));
                    assert(store@ == store_of(all.take(it.index() + 1)));
                },
                Err(_) => {},
            }
        }
        assert(all.take(all.len() as int) == all);
        store
    }

    /// The coordinates of all chunks of the store, each once, in no
    /// stated order.
    pub fn keys(&self) -> (coords: Vec<ChunkCoord>)
        ensures
            coords@.no_duplicates(),
            forall|coord: ChunkCoord| coords@.contains(coord) <==> self@.contains_key(coord),
    {
        broadcast use vstd::std_specs::hash::group_hash_axioms;

        let mut coords: Vec<ChunkCoord> = Vec::new();
        let ghost keys = vstd::std_specs::hash::spec_keys_iter(&self.table).remaining();
        let ghost mut places: Seq<int> = Seq::empty();
        for key in it: self.table.keys()
            invariant
                it.seq() == keys,
                places.len() == coords@.len(),
                forall|i: int|
                    0 <= i < places.len() ==> 0 <= #[trigger] places[i] < it.index() && *keys[places[i]]
                        == table_key(coords@[i]),
                forall|i: int, j: int| 0 <= i < j < places.len() ==> places[i] < places[j],
                forall|k: int|
                    0 <= k < it.index() && *#[trigger] keys[k] < 0x1_00_0000_0000_0000_0000
                        ==> exists|i: int| 0 <= i < places.len() && places[i] == k,
        {
            if *key < 0x1_00_0000_0000_0000_0000 {
                let ghost before = places;
                coords.push(coord_of(*key));
                proof {
                    places = places.push(it.index());
                    assert forall|k: int|
                        0 <= k < it.index() + 1 && *#[trigger] keys[k]
                            < 0x1_00_0000_0000_0000_0000 implies exists|i: int|
                        0 <= i < places.len() && places[i] == k by {
                        if k < it.index() {
                            let i = choose|i: int| 0 <= i < before.len() && before[i] == k;
                            assert(places[i] == k);
                        } else {
                            assert(places[places.len() - 1] == k);
                        }
                    }
                }
            }
        }
        assert forall|i: int, j: int|
            0 <= i < coords@.len() && 0 <= j < coords@.len() && i != j implies coords@[i]
            != coords@[j] by {
            assert(places[i] != places[j]);
            assert(*keys[places[i]] == table_key(coords@[i]));
            assert(*keys[places[j]] == table_key(coords@[j]));
        }
        assert forall|coord: ChunkCoord| coords@.contains(coord) <==> self@.contains_key(coord) by {
            if coords@.contains(coord) {
                let i = choose|i: int| 0 <= i < coords@.len() && coords@[i] == coord;
                assert(keys.unref()[places[i]] == table_key(coord));
                assert(keys.unref().to_set().contains(table_key(coord)));
            }
            if self@.contains_key(coord) {
                assert(keys.unref().to_set().contains(table_key(coord)));
                let k = choose|k: int| 0 <= k < keys.len() && keys.unref()[k] == table_key(coord);
                assert(*keys[k] == table_key(coord));
                let i = choose|i: int| 0 <= i < places.len() && places[i] == k;
                assert(table_key(coords@[i]) == table_key(coord));
                assert(coords@[i] == coord);
            }
        }
        coords
    }

    pub fn contains_key(&self, key: &ChunkCoord) -> (found: bool)
        ensures
            found == self@.contains_key(*key),
    {
        broadcast use vstd::std_specs::hash::group_hash_axioms;

        let k = key_of(*key);
        self.table.contains_key(&k)
    }

    /// The chunk at a coordinate, decompressed now if it was not yet.
    ///
    /// Nothing is returned where the store has no such chunk. A chunk whose
    /// bytes cannot be decompressed gives the error and stays as it was;
    /// no other chunk is touched either way.
    pub fn chunk_at(&mut self, coord: ChunkCoord) -> (r: Option<std::io::Result<&Chunk>>)
        ensures
            match r {
                None => !old(self)@.contains_key(coord) && final(self)@ == old(self)@,
                Some(outcome) => old(self)@.contains_key(coord) && final(self)@ == old(self)@.insert(
                    coord,
                    old(self)@[coord].settled(),
                ) && match outcome {
                    Ok(chunk) => old(self)@[coord].settled() == Gzip::Uncompressed(*chunk),
                    Err(_) => old(self)@[coord].settled() is Compressed,
                },
            },
    {
        broadcast use vstd::std_specs::hash::group_hash_axioms;

        let key = key_of(coord);
        match self.table.entry(key) {
            Entry::Occupied(entry) => Some(entry.into_mut().as_uncompressed()),
            Entry::Vacant(_) => None,
        }
    }
}

impl Chunks {
    /// As [`Chunks::chunk_at`], for changing the chunk in place. What the
    /// caller leaves behind is what the store holds for the coordinate.
    pub fn chunk_at_mut(&mut self, coord: ChunkCoord) -> (r: Option<std::io::Result<&mut Chunk>>)
        ensures
            match r {
                None => !old(self)@.contains_key(coord) && final(self)@ == old(self)@,
                Some(Ok(chunk)) => old(self)@.contains_key(coord) && old(self)@[coord].settled()
                    == Gzip::Uncompressed(*chunk) && final(self)@ == old(self)@.insert(
                    coord,
                    Gzip::Uncompressed(*final(chunk)),
                ),
                Some(Err(_)) => old(self)@.contains_key(coord) && old(self)@[coord].settled()
                    is Compressed && final(self)@ == old(self)@,
            },
    {
        broadcast use vstd::std_specs::hash::group_hash_axioms;

        let key = key_of(coord);
        match self.table.entry(key) {
            Entry::Occupied(entry) => Some(entry.into_mut().as_uncompressed_mut()),
            Entry::Vacant(_) => None,
        }
    }

    /// The record of a block of the world, to be read: the chunk that
    /// holds the block is found and decompressed if need be, and the
    /// record is the one at the block's place inside it.
    pub fn block_at(&mut self, coord: BlockCoord) -> (r: Option<std::io::Result<Block<'_>>>)
        ensures
            ({
                let at = chunk_of(coord@.0, coord@.1);
                let within = within_chunk(coord@.0, coord@.1);
                let offset = record_offset(within.0, within.1) as int;
                let was = old(self)@;
                match r {
                    None => !was.contains_key(at) && final(self)@ == was,
                    Some(Ok(block)) => {
                        &&& was.contains_key(at)
                        &&& final(self)@ == was.insert(at, was[at].settled())
                        &&& was[at].settled() matches Gzip::Uncompressed(chunk)
                        &&& block@ == record_at(chunk@, offset)
                    },
                    Some(Err(_)) => was.contains_key(at) && final(self)@ == was
                        && was[at].settled() is Compressed,
                }
            }),
    {
        let (chunk_coord, chunk_block_coord) = coord.decompose();
        match self.chunk_at(chunk_coord) {
            None => None,
            Some(Err(e)) => {
                assert(old(self)@.insert(chunk_coord, old(self)@[chunk_coord]) == old(self)@);
                Some(Err(e))
            },
            Some(Ok(chunk)) => Some(Ok(chunk.block_at(chunk_block_coord))),
        }
    }

    /// The record of a block of the world, to be read and written. What
    /// is written goes to the block's 64 bytes of its chunk.
    pub fn block_at_mut(&mut self, coord: BlockCoord) -> (r: Option<std::io::Result<BlockMut<'_>>>)
        ensures
            ({
                let at = chunk_of(coord@.0, coord@.1);
                let within = within_chunk(coord@.0, coord@.1);
                let offset = record_offset(within.0, within.1) as int;
                let was = old(self)@;
                match r {
                    None => !was.contains_key(at) && final(self)@ == was,
                    Some(Ok(block)) => {
                        &&& was.contains_key(at)
                        &&& was[at].settled() matches Gzip::Uncompressed(chunk)
                        &&& block@ == record_at(chunk@, offset)
                        &&& final(self)@ == was.insert(
                            at,
                            Gzip::Uncompressed(
                                Chunk::holding(with_record(chunk@, offset, final(block.0)@)),
                            ),
                        )
                    },
                    Some(Err(_)) => was.contains_key(at) && final(self)@ == was
                        && was[at].settled() is Compressed,
                }
            }),
    {
        let (chunk_coord, chunk_block_coord) = coord.decompose();
        match self.chunk_at_mut(chunk_coord) {
            None => None,
            Some(Err(e)) => Some(Err(e)),
            Some(Ok(chunk)) => {
                proof {
                    final(chunk).lemma_holding();
                }
                Some(Ok(chunk.block_at_mut(chunk_block_coord)))
            },
        }
    }
}

} // verus!
