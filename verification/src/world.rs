use crate::chunks::{store_of, Chunks};
use crate::error::{BhError, BhResult};
use vstd::prelude::*;

verus! {

/// The table of a save that holds the chunks.
pub const BLOCKS_TABLE: &'static str = "blocks";

/// The table of a save that holds the dynamic objects, blob by blob.
pub const DW_TABLE: &'static str = "dw";

/// The table of a save that holds the three records of [`WorldDbMain`].
pub const MAIN_TABLE: &'static str = "main";

/// The key of the record of the blockheads in the main table.
pub const BLOCKHEADS_KEY: &'static str = "blockheads";

/// The key of the record of the dynamic world in the main table.
pub const DYNAMIC_WORLD_KEY: &'static str = "dynamicWorldv2";

/// The key of the metadata record in the main table.
pub const WORLD_KEY: &'static str = "worldv2";

/// A value of a property list, carried as it was read.
#[verifier::external_type_specification]
#[verifier::external_body]
pub struct ExPlistValue(plist::Value);

/// A date of a property list, carried as it was read.
#[verifier::external_type_specification]
#[verifier::external_body]
pub struct ExPlistDate(plist::Date);

/// A dictionary from text keys to byte blobs, kept as the save has it.
///
/// The records stand in a vector in which no key occurs twice. A hash map
/// keyed by text would do the same work faster, but of such a map nothing
/// can be proved here: what is known of a hash map is known only for
/// keys whose hashing is described, and that of text is not.
#[derive(Debug)]
pub struct BlobMap {
    entries: Vec<(String, Vec<u8>)>,
}

/// The dictionary that a table of records gives: of two records with one
/// key the later one stays.
pub open spec fn blobs_of(records: Seq<(String, Vec<u8>)>) -> Map<Seq<char>, Seq<u8>>
    decreases records.len(),
{
    if records.len() == 0 {
        Map::empty()
    } else {
        blobs_of(records.drop_last()).insert(records.last().0@, records.last().1@)
    }
}

spec fn keys_differ(entries: Seq<(String, Vec<u8>)>) -> bool {
    forall|i: int, j: int|
        0 <= i < j < entries.len() ==> (#[trigger] entries[i]).0@ != (#[trigger] entries[j]).0@
}

spec fn holds_key(entries: Seq<(String, Vec<u8>)>, key: Seq<char>, i: int) -> bool {
    0 <= i < entries.len() && entries[i].0@ == key
}

spec fn map_of(entries: Seq<(String, Vec<u8>)>) -> Map<Seq<char>, Seq<u8>> {
    Map::new(
        |key: Seq<char>| exists|i: int| holds_key(entries, key, i),
        |key: Seq<char>| entries[choose|i: int| holds_key(entries, key, i)].1@,
    )
}

/// Putting a record where its key stands, or at the end if its key is
/// new, is an insertion into the dictionary.
proof fn lemma_put(
    entries: Seq<(String, Vec<u8>)>,
    record: (String, Vec<u8>),
    at: int,
    after: Seq<(String, Vec<u8>)>,
)
    requires
        keys_differ(entries),
        0 <= at <= entries.len(),
        at < entries.len() ==> entries[at].0@ == record.0@ && after == entries.update(at, record),
        at == entries.len() ==> after == entries.push(record) && forall|i: int|
            0 <= i < entries.len() ==> (#[trigger] entries[i]).0@ != record.0@,
    ensures
        keys_differ(after),
        map_of(after) == map_of(entries).insert(record.0@, record.1@),
{
    assert forall|i: int| 0 <= i < after.len() implies (#[trigger] after[i]).0@ == (if i == at {
        record.0@
    } else {
        entries[i].0@
    }) by {}
    assert(keys_differ(after));
    assert(holds_key(after, record.0@, at));
    assert forall|key: Seq<char>|
        #[trigger] map_of(after).contains_key(key) <==> map_of(entries).insert(
            record.0@,
            record.1@,
        ).contains_key(key) by {
        if map_of(after).contains_key(key) && key != record.0@ {
            let i = choose|i: int| holds_key(after, key, i);
            assert(holds_key(entries, key, i));
        }
        if map_of(entries).contains_key(key) {
            let i = choose|i: int| holds_key(entries, key, i);
            assert(holds_key(after, key, i));
        }
    }
    assert forall|key: Seq<char>| #[trigger] map_of(after).contains_key(key) implies map_of(
        after,
    )[key] == map_of(entries).insert(record.0@, record.1@)[key] by {
        let i = choose|i: int| holds_key(after, key, i);
        if key == record.0@ {
            assert(i == at);
        } else {
            assert(holds_key(entries, key, i));
            let j = choose|j: int| holds_key(entries, key, j);
            assert(i == j);
        }
    }
    assert(map_of(after) =~= map_of(entries).insert(record.0@, record.1@));
}

proof fn lemma_count(entries: Seq<(String, Vec<u8>)>)
    requires
        keys_differ(entries),
    ensures
        map_of(entries).dom().finite(),
        map_of(entries).dom().len() == entries.len(),
    decreases entries.len(),
{
    if entries.len() == 0 {
        assert(map_of(entries).dom() =~= Set::empty());
    } else {
        let earlier = entries.drop_last();
        assert forall|i: int| 0 <= i < earlier.len() implies (#[trigger] earlier[i]).0@
            != entries.last().0@ by {
            assert(earlier[i] == entries[i]);
        }
        assert(keys_differ(earlier)) by {
            assert forall|i: int, j: int| 0 <= i < j < earlier.len() implies (#[trigger] earlier[i]).0@
                != (#[trigger] earlier[j]).0@ by {
                assert(earlier[i] == entries[i]);
                assert(earlier[j] == entries[j]);
            }
        }
        lemma_count(earlier);
        assert(entries == earlier.push(entries.last()));
        lemma_put(earlier, entries.last(), earlier.len() as int, entries);
        assert(!map_of(earlier).dom().contains(entries.last().0@)) by {
            if map_of(earlier).dom().contains(entries.last().0@) {
                let i = choose|i: int| holds_key(earlier, entries.last().0@, i);
                assert(earlier[i].0@ == entries.last().0@);
            }
        }
        assert(map_of(entries).dom() =~= map_of(earlier).dom().insert(entries.last().0@));
    }
}

impl BlobMap {
    #[verifier::type_invariant]
    spec fn no_key_twice(self) -> bool {
        keys_differ(self.entries@)
    }

    /// The blobs by key.
    pub closed spec fn view(&self) -> Map<Seq<char>, Seq<u8>> {
        map_of(self.entries@)
    }

    /// The place of the record with this key, or the number of records if
    /// none has it.
    fn find(entries: &Vec<(String, Vec<u8>)>, key: &String) -> (at: usize)
        ensures
            at <= entries@.len(),
            at < entries@.len() ==> entries@[at as int].0@ == key@,
            at == entries@.len() ==> forall|i: int|
                0 <= i < entries@.len() ==> (#[trigger] entries@[i]).0@ != key@,
    {
        let mut i: usize = 0;
        while i < entries.len()
            invariant
                i <= entries@.len(),
                forall|j: int| 0 <= j < i ==> (#[trigger] entries@[j]).0@ != key@,
            decreases entries@.len() - i,
        {
            if entries[i].0 == *key {
                return i;
            }
            i += 1;
        }
        i
    }

    /// The blob under a key, if there is one.
    pub fn get(&self, key: &str) -> (blob: Option<&Vec<u8>>)
        ensures
            match blob {
                Some(bytes) => self@.contains_key(key@) && bytes@ == self@[key@],
                None => !self@.contains_key(key@),
            },
    {
        proof {
            use_type_invariant(self);
        }
        let wanted = String::from_str(key);
        let at = Self::find(&self.entries, &wanted);
        if at < self.entries.len() {
            assert(holds_key(self.entries@, key@, at as int));
            Some(&self.entries[at].1)
        } else {
            assert forall|i: int| !holds_key(self.entries@, key@, i) by {
                if 0 <= i < self.entries@.len() {
                    assert(self.entries@[i].0@ != key@);
                }
            }
            None
        }
    }

    pub fn contains_key(&self, key: &str) -> (found: bool)
        ensures
            found == self@.contains_key(key@),
    {
        self.get(key).is_some()
    }

    /// The number of blobs.
    pub fn len(&self) -> (n: usize)
        ensures
            self@.dom().finite(),
            n == self@.len(),
    {
        proof {
            use_type_invariant(self);
            lemma_count(self.entries@);
        }
        self.entries.len()
    }

    pub fn is_empty(&self) -> (empty: bool)
        ensures
            empty == (self@.len() == 0),
    {
        self.len() == 0
    }

    /// All keys, each once.
    pub fn keys(&self) -> (keys: Vec<String>)
        ensures
            keys@.len() == self@.len(),
            forall|i: int, j: int| 0 <= i < j < keys@.len() ==> keys@[i]@ != keys@[j]@,
            forall|i: int| 0 <= i < keys@.len() ==> self@.contains_key(#[trigger] keys@[i]@),
            forall|key: Seq<char>|
                self@.contains_key(key) ==> exists|i: int|
                    0 <= i < keys@.len() && #[trigger] keys@[i]@ == key,
    {
        proof {
            use_type_invariant(self);
            lemma_count(self.entries@);
        }
        let mut keys: Vec<String> = Vec::new();
        let mut i: usize = 0;
        while i < self.entries.len()
            invariant
                i <= self.entries@.len(),
                keys@.len() == i,
                forall|j: int| 0 <= j < i ==> (#[trigger] keys@[j])@ == self.entries@[j].0@,
            decreases self.entries@.len() - i,
        {
            keys.push(self.entries[i].0.clone());
            i += 1;
        }
        assert forall|i: int| 0 <= i < keys@.len() implies self@.contains_key(
            #[trigger] keys@[i]@,
        ) by {
            assert(holds_key(self.entries@, keys@[i]@, i));
        }
        assert forall|key: Seq<char>| self@.contains_key(key) implies exists|i: int|
            0 <= i < keys@.len() && #[trigger] keys@[i]@ == key by {
            let i = choose|i: int| holds_key(self.entries@, key, i);
            assert(keys@[i]@ == key);
        }
        keys
    }

    /// Builds the dictionary from the records of a table.
    pub fn from_db(records: Vec<(String, Vec<u8>)>) -> (blobs: Self)
        ensures
            blobs@ == blobs_of(records@),
    {
        let mut entries: Vec<(String, Vec<u8>)> = Vec::new();
        let ghost all = records@;
        assert(map_of(entries@) =~= blobs_of(all.take(0)));
        for record in it: records.into_iter()
            invariant
                it.seq() == all,
                keys_differ(entries@),
                map_of(entries@) == blobs_of(all.take(it.index() as int)),
        {
            let ghost before = entries@;
            assert(all.take(it.index() + 1).drop_last() == all.take(it.index() as int));
            let at = Self::find(&entries, &record.0);
            proof {
                let after = if at < before.len() {
                    before.update(at as int, record)
                } else {
                    before.push(record)
                };
                lemma_put(before, record, at as int, after);
            }
            if at < entries.len() {
                entries.set(at, record);
            } else {
                entries.push(record);
            }
        }
        assert(all.take(all.len() as int) == all);
        BlobMap { entries }
    }
}

/// The metadata record of a world, field by field as the save has it.
/// Nothing in it is interpreted here.
#[derive(Debug)]
pub struct WorldV2 {
    pub blockhead_datasv2: plist::Value,
    pub circum_navigate_booleans_data: Vec<u8>,
    pub creation_date: plist::Date,
    pub distance_ordered_food_types: Vec<u8>,
    pub expert_mode: bool,
    pub found_items: Vec<u8>,
    pub host_port: String,
    pub max_players: String,
    pub migration_complete_v1_7: bool,
    /// The bits of a 64-bit IEEE 754 number.
    pub no_rain_timer_bits: u64,
    pub portal_level: u64,
    pub random_seed: u64,
    pub remote_game: bool,
    pub run_at_launch: bool,
    pub save_date: plist::Date,
    pub save_id: String,
    pub save_version: u64,
    /// The column of the block of the start portal.
    pub start_portal_pos_x: u64,
    /// The row of the block of the start portal.
    pub start_portal_pos_y: u64,
    /// The bits of two 64-bit IEEE 754 numbers.
    pub translation_bits: (u64, u64),
    pub world_name: String,
    /// The bits of a 64-bit IEEE 754 number.
    pub world_time_bits: u64,
    /// The width of the world, in chunks.
    pub world_width_macro: u64,
}

/// The three records of the main table.
#[derive(Debug)]
pub struct WorldDbMain {
    pub blockheads: Vec<u8>,
    pub dynamic_world_v2: Vec<u8>,
    pub world_v2: WorldV2,
}

impl WorldDbMain {
    /// Puts the main table together from what was found under its three
    /// keys: the two blobs, and the metadata record as its parser gave it,
    /// a record or the parser's complaint.
    ///
    /// If any of the three keys was not found there is no main table, and
    /// that is no error, whatever the parser said. Else a complaint of
    /// the parser is the error.
    pub fn from_db(
        blockheads: Option<Vec<u8>>,
        dynamic_world_v2: Option<Vec<u8>>,
        world_v2: Option<Result<WorldV2, String>>,
    ) -> (r: BhResult<Option<Self>>)
        ensures
            match (blockheads, dynamic_world_v2, world_v2) {
                (Some(blockheads), Some(dynamic_world_v2), Some(Ok(world_v2))) => r == Ok::<
                    Option<Self>,
                    BhError,
                >(Some(WorldDbMain { blockheads, dynamic_world_v2, world_v2 })),
                (Some(_), Some(_), Some(Err(complaint))) => r == Err::<Option<Self>, BhError>(
                    BhError::PlistError(complaint),
                ),
                _ => r == Ok::<Option<Self>, BhError>(None),
            },
    {
        match (blockheads, dynamic_world_v2, world_v2) {
            (Some(blockheads), Some(dynamic_world_v2), Some(world_v2)) => match world_v2 {
                Ok(world_v2) => Ok(Some(Self { blockheads, dynamic_world_v2, world_v2 })),
                Err(complaint) => Err(BhError::PlistError(complaint)),
            },
            _ => Ok(None),
        }
    }
}

/// A world save: its chunks, its dynamic objects and its main table.
#[derive(Debug)]
pub struct WorldDb {
    pub blocks: Chunks,
    pub dw: BlobMap,
    pub main: WorldDbMain,
}

impl WorldDb {
    /// Puts a world together from what was found of its three tables. A
    /// table that the save does not have is handed in as `None`. A table
    /// that it has is handed in as it was read: the records of the table
    /// of chunks and of the table of dynamic objects, or the complaint of
    /// the store about the reading; and the main table as
    /// [`WorldDbMain::from_db`] gave it.
    ///
    /// There is a world only if all three tables are there and the main
    /// table has its three records. That a world is absent is no error,
    /// and where a table is missing nothing else is looked at. Else the
    /// first failure is the error: of the chunks, then of the dynamic
    /// objects, then of the main table.
    pub fn from_tables(
        blocks: Option<Result<Vec<(String, Vec<u8>)>, String>>,
        dw: Option<Result<Vec<(String, Vec<u8>)>, String>>,
        main: Option<BhResult<Option<WorldDbMain>>>,
    ) -> (r: BhResult<Option<Self>>)
        ensures
            match (blocks, dw, main) {
                (Some(Ok(blocks)), Some(Ok(dw)), Some(Ok(Some(main)))) => {
                    &&& r matches Ok(Some(world))
                    &&& world.blocks@ == store_of(blocks@)
                    &&& world.dw@ == blobs_of(dw@)
                    &&& world.main == main
                },
                (Some(Ok(_)), Some(Ok(_)), Some(Ok(None))) => r matches Ok(None),
                (Some(Ok(_)), Some(Ok(_)), Some(Err(e))) => r matches Err(failure) && failure == e,
                (Some(Ok(_)), Some(Err(complaint)), Some(_)) => r matches Err(
                    BhError::DbError(message),
                ) && message == complaint,
                (Some(Err(complaint)), Some(_), Some(_)) => r matches Err(
                    BhError::DbError(message),
                ) && message == complaint,
                _ => r matches Ok(None),
            },
    {
        match (blocks, dw, main) {
            (Some(blocks), Some(dw), Some(main)) => {
                let blocks = match blocks {
                    Ok(records) => Chunks::from_db(records),
                    Err(complaint) => {
                        return Err(BhError::DbError(complaint));
                    },
                };
                let dw = match dw {
                    Ok(records) => BlobMap::from_db(records),
                    Err(complaint) => {
                        return Err(BhError::DbError(complaint));
                    },
                };
                match main {
                    Ok(Some(main)) => Ok(Some(WorldDb { blocks, dw, main })),
                    Ok(None) => Ok(None),
                    Err(e) => Err(e),
                }
            },
            _ => Ok(None),
        }
    }
}

} // verus!
