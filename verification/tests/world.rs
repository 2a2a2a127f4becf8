use std::time::{Duration, SystemTime};
use the_blockheads_tools_lib::world::{
    BLOCKHEADS_KEY, BLOCKS_TABLE, DW_TABLE, DYNAMIC_WORLD_KEY, MAIN_TABLE, WORLD_KEY,
};
use the_blockheads_tools_lib::{BhError, BlobMap, ChunkCoord, WorldDb, WorldDbMain, WorldV2};

fn record(key: &str, value: &[u8]) -> (String, Vec<u8>) {
    (key.to_string(), value.to_vec())
}

fn metadata() -> WorldV2 {
    WorldV2 {
        blockhead_datasv2: plist::Value::Array(vec![plist::Value::Integer(7.into())]),
        circum_navigate_booleans_data: vec![1, 0, 1],
        creation_date: plist::Date::from(SystemTime::UNIX_EPOCH + Duration::from_secs(1_600_000_000)),
        distance_ordered_food_types: vec![4, 0, 0, 0],
        expert_mode: false,
        found_items: vec![],
        host_port: "15151".to_string(),
        max_players: "16".to_string(),
        migration_complete_v1_7: true,
        no_rain_timer_bits: 12.5f64.to_bits(),
        portal_level: 2,
        random_seed: 987654321,
        remote_game: false,
        run_at_launch: false,
        save_date: plist::Date::from(SystemTime::UNIX_EPOCH + Duration::from_secs(1_700_000_000)),
        save_id: "3d716d9bbf89c77ef5001e9cd227ec29".to_string(),
        save_version: 3,
        start_portal_pos_x: 8000,
        start_portal_pos_y: 520,
        translation_bits: (0f64.to_bits(), 0f64.to_bits()),
        world_name: "a world".to_string(),
        world_time_bits: 3600.0f64.to_bits(),
        world_width_macro: 512,
    }
}

#[test]
fn the_names_of_the_save_format() {
    assert_eq!(BLOCKS_TABLE, "blocks");
    assert_eq!(DW_TABLE, "dw");
    assert_eq!(MAIN_TABLE, "main");
    assert_eq!(BLOCKHEADS_KEY, "blockheads");
    assert_eq!(DYNAMIC_WORLD_KEY, "dynamicWorldv2");
    assert_eq!(WORLD_KEY, "worldv2");
}

#[test]
fn blobs_are_found_by_key() {
    let blobs = BlobMap::from_db(vec![
        record("a", &[1]),
        record("b", &[2, 2]),
        record("", &[]),
        record("a", &[3, 3, 3]),
        record("ab", &[4]),
    ]);
    assert_eq!(blobs.len(), 4);
    assert!(!blobs.is_empty());
    assert_eq!(blobs.get("a"), Some(&vec![3, 3, 3]));
    assert_eq!(blobs.get("b"), Some(&vec![2, 2]));
    assert_eq!(blobs.get(""), Some(&vec![]));
    assert_eq!(blobs.get("ab"), Some(&vec![4]));
    assert_eq!(blobs.get("c"), None);
    assert_eq!(blobs.get("A"), None);
    assert!(blobs.contains_key("ab"));
    assert!(!blobs.contains_key("ba"));
    assert_eq!(blobs.keys(), vec!["a", "b", "", "ab"]);
}

#[test]
fn no_records_no_blobs() {
    let blobs = BlobMap::from_db(Vec::new());
    assert_eq!(blobs.len(), 0);
    assert!(blobs.is_empty());
    assert!(blobs.keys().is_empty());
    assert_eq!(blobs.get("a"), None);
}

#[test]
fn the_main_table_needs_its_three_records() {
    let main = WorldDbMain::from_db(Some(vec![1]), Some(vec![2]), Some(Ok(metadata())))
        .unwrap()
        .unwrap();
    assert_eq!(main.blockheads, vec![1]);
    assert_eq!(main.dynamic_world_v2, vec![2]);
    assert_eq!(main.world_v2.world_width_macro, 512);
    assert_eq!(main.world_v2.start_portal_pos_x, 8000);
    assert_eq!(main.world_v2.start_portal_pos_y, 520);
    assert_eq!(f64::from_bits(main.world_v2.no_rain_timer_bits), 12.5);

    assert!(WorldDbMain::from_db(None, Some(vec![2]), Some(Ok(metadata())))
        .unwrap()
        .is_none());
    assert!(WorldDbMain::from_db(Some(vec![1]), None, Some(Ok(metadata())))
        .unwrap()
        .is_none());
    assert!(WorldDbMain::from_db(Some(vec![1]), Some(vec![2]), None)
        .unwrap()
        .is_none());
    assert!(WorldDbMain::from_db(None, None, None).unwrap().is_none());
}

#[test]
fn a_record_that_does_not_parse_is_an_error_only_if_the_others_are_there() {
    let complaint = || Some(Err("missing field `worldName`".to_string()));
    match WorldDbMain::from_db(Some(vec![1]), Some(vec![2]), complaint()) {
        Err(BhError::PlistError(message)) => assert_eq!(message, "missing field `worldName`"),
        other => panic!("unexpected {:?}", other),
    }
    assert!(WorldDbMain::from_db(None, Some(vec![2]), complaint())
        .unwrap()
        .is_none());
    assert!(WorldDbMain::from_db(Some(vec![1]), None, complaint())
        .unwrap()
        .is_none());
}

fn main_table() -> WorldDbMain {
    WorldDbMain::from_db(Some(vec![1]), Some(vec![2]), Some(Ok(metadata())))
        .unwrap()
        .unwrap()
}

fn table(records: &[(String, Vec<u8>)]) -> Option<Result<Vec<(String, Vec<u8>)>, String>> {
    Some(Ok(records.to_vec()))
}

fn broken(complaint: &str) -> Option<Result<Vec<(String, Vec<u8>)>, String>> {
    Some(Err(complaint.to_string()))
}

#[test]
fn a_save_without_its_main_table_is_absent() {
    let blocks = vec![record("0_0", &[1, 2, 3])];
    let dw = vec![record("k", &[9])];
    assert!(WorldDb::from_tables(table(&blocks), table(&dw), None)
        .unwrap()
        .is_none());
    assert!(WorldDb::from_tables(table(&blocks), table(&dw), Some(Ok(None)))
        .unwrap()
        .is_none());
    assert!(WorldDb::from_tables(None, table(&dw), Some(Ok(Some(main_table()))))
        .unwrap()
        .is_none());
    assert!(WorldDb::from_tables(table(&blocks), None, Some(Ok(Some(main_table()))))
        .unwrap()
        .is_none());
    assert!(WorldDb::from_tables(None, None, None).unwrap().is_none());
}

#[test]
fn where_a_table_is_missing_no_failure_counts() {
    let dw = vec![record("k", &[9])];
    let unreadable = || Some(Err(BhError::PlistError("no dictionary".to_string())));
    assert!(WorldDb::from_tables(broken("bad page"), table(&dw), None)
        .unwrap()
        .is_none());
    assert!(WorldDb::from_tables(broken("bad page"), None, unreadable())
        .unwrap()
        .is_none());
    assert!(WorldDb::from_tables(None, broken("bad page"), unreadable())
        .unwrap()
        .is_none());
}

#[test]
fn the_first_failure_of_a_whole_save_is_the_error() {
    let blocks = vec![record("0_0", &[1, 2, 3])];
    let dw = vec![record("k", &[9])];
    let unreadable = || Some(Err(BhError::PlistError("no dictionary".to_string())));
    match WorldDb::from_tables(broken("chunks"), broken("objects"), unreadable()) {
        Err(BhError::DbError(message)) => assert_eq!(message, "chunks"),
        other => panic!("unexpected {:?}", other),
    }
    match WorldDb::from_tables(table(&blocks), broken("objects"), unreadable()) {
        Err(BhError::DbError(message)) => assert_eq!(message, "objects"),
        other => panic!("unexpected {:?}", other),
    }
    match WorldDb::from_tables(table(&blocks), table(&dw), unreadable()) {
        Err(BhError::PlistError(message)) => assert_eq!(message, "no dictionary"),
        other => panic!("unexpected {:?}", other),
    }
    match WorldDb::from_tables(broken("chunks"), table(&dw), Some(Ok(None))) {
        Err(BhError::DbError(message)) => assert_eq!(message, "chunks"),
        other => panic!("unexpected {:?}", other),
    }
}

#[test]
fn a_save_with_its_three_tables_is_a_world() {
    let blocks = vec![record("0_0", &[1, 2, 3]), record("5_6", &[4]), record("junk", &[5])];
    let dw = vec![record("k", &[9])];
    let mut world = WorldDb::from_tables(table(&blocks), table(&dw), Some(Ok(Some(main_table()))))
        .unwrap()
        .unwrap();
    assert!(world.blocks.contains_key(&ChunkCoord { x: 0, y: 0 }));
    assert!(world.blocks.contains_key(&ChunkCoord { x: 5, y: 6 }));
    assert_eq!(world.blocks.keys().len(), 2);
    assert!(world.blocks.chunk_at(ChunkCoord { x: 5, y: 6 }).unwrap().is_err());
    assert_eq!(world.dw.get("k"), Some(&vec![9]));
    assert_eq!(world.main.world_v2.world_name, "a world");
}
