use flate2::write::GzEncoder;
use flate2::Compression;
use std::io::Write;
use the_blockheads_tools_lib::chunk_gen::{
    new_client_macro_block_request, read_server_message, read_world_width,
    try_read_server_message, width_of_readings, ChunkStep, GenerationPlan, ServerMessage,
    MAX_WORLD_WIDTH_MACRO, WORLD_WIDTH_KEY,
};

fn gzip(bytes: &[u8]) -> Vec<u8> {
    let mut encoder = GzEncoder::new(Vec::new(), Compression::default());
    encoder.write_all(bytes).unwrap();
    encoder.finish().unwrap()
}

fn description(entries: &str) -> Vec<u8> {
    let document = format!(
        "<?xml version=\"1.0\" encoding=\"UTF-8\"?>\n\
         <!DOCTYPE plist PUBLIC \"-//Apple//DTD PLIST 1.0//EN\" \
         \"http://www.apple.com/DTDs/PropertyList-1.0.dtd\">\n\
         <plist version=\"1.0\">\n<dict>\n{entries}</dict>\n</plist>\n"
    );
    gzip(document.as_bytes())
}

#[test]
fn the_width_is_read_from_the_description() {
    assert_eq!(WORLD_WIDTH_KEY, "worldWidthMacro");
    let payload = description(
        "<key>worldName</key><string>w</string>\n\
         <key>worldWidthMacro</key><integer>512</integer>\n",
    );
    assert_eq!(read_world_width(&payload), Some(512));
    let payload = description("<key>worldWidthMacro</key><integer>16</integer>\n");
    assert_eq!(read_world_width(&payload), Some(16));
    let payload = description("<key>worldWidthMacro</key><integer>4294967301</integer>\n");
    assert_eq!(read_world_width(&payload), Some(5));
}

#[test]
fn a_description_without_a_width_gives_nothing() {
    assert_eq!(read_world_width(&description("")), None);
    assert_eq!(
        read_world_width(&description("<key>worldWidth</key><integer>512</integer>\n")),
        None
    );
    assert_eq!(
        read_world_width(&description("<key>worldWidthMacro</key><string>512</string>\n")),
        None
    );
    assert_eq!(
        read_world_width(&description("<key>worldWidthMacro</key><integer>-1</integer>\n")),
        None
    );
    assert_eq!(read_world_width(&gzip(b"<plist><array/></plist>")), None);
    assert_eq!(read_world_width(&gzip(b"no property list")), None);
    assert_eq!(read_world_width(&gzip(&[0xff, 0xfe, 0x00])), None);
    assert_eq!(read_world_width(b"not compressed"), None);
    assert_eq!(read_world_width(b""), None);
    let mut cut = description("<key>worldWidthMacro</key><integer>512</integer>\n");
    cut.truncate(cut.len() - 12);
    assert_eq!(read_world_width(&cut), None);
}

#[test]
fn the_width_is_cut_to_32_bits() {
    assert_eq!(width_of_readings(Some("text"), Some(512)), Some(512));
    assert_eq!(width_of_readings(Some(""), Some(0)), Some(0));
    assert_eq!(width_of_readings(Some(""), Some(u32::MAX as u64)), Some(u32::MAX));
    assert_eq!(width_of_readings(Some(""), Some(1 << 32)), Some(0));
    assert_eq!(width_of_readings(Some(""), Some(u64::MAX)), Some(u32::MAX));
    assert_eq!(width_of_readings(None, Some(512)), None);
    assert_eq!(width_of_readings(Some("text"), None), None);
    assert_eq!(width_of_readings(None, None), None);
}

#[test]
fn a_request_names_its_chunk() {
    assert_eq!(new_client_macro_block_request(0), [3, 0, 0, 0, 0, 1, 0, 0, 0]);
    assert_eq!(new_client_macro_block_request(1), [3, 1, 0, 0, 0, 1, 0, 0, 0]);
    assert_eq!(
        new_client_macro_block_request(0x0403_0201),
        [3, 1, 2, 3, 4, 1, 0, 0, 0]
    );
    assert_eq!(
        new_client_macro_block_request(u32::MAX),
        [3, 255, 255, 255, 255, 1, 0, 0, 0]
    );
    for index in [0u32, 255, 256, 65535, 65536, 16777215, 16777216, 123456789] {
        let payload = new_client_macro_block_request(index);
        assert_eq!(&payload[1..5], &index.to_le_bytes());
    }
}

#[test]
fn messages_are_told_by_their_first_byte() {
    assert_eq!(read_server_message(b""), ServerMessage::Other);
    assert_eq!(read_server_message(b"#world"), ServerMessage::WorldId);
    assert_eq!(read_server_message(b"#"), ServerMessage::WorldId);
    assert_eq!(read_server_message(&[1, 0x1f, 0x8b]), ServerMessage::WorldInfo);
    assert_eq!(read_server_message(&[1]), ServerMessage::WorldInfo);
    assert_eq!(
        read_server_message(&[4, 1, 2, 3, 4]),
        ServerMessage::ChunkDone(0x0403_0201)
    );
    assert_eq!(
        read_server_message(&[4, 0xff, 0xff, 0xff, 0xff, 9, 9]),
        ServerMessage::ChunkDone(u32::MAX)
    );
    assert_eq!(read_server_message(&[0]), ServerMessage::Other);
    assert_eq!(read_server_message(&[3, 1, 2, 3, 4, 1]), ServerMessage::Other);
    assert_eq!(read_server_message(&[5]), ServerMessage::Other);
}

#[test]
fn a_chunk_message_that_is_cut_short_gives_nothing() {
    assert_eq!(try_read_server_message(&[4]), None);
    assert_eq!(try_read_server_message(&[4, 1, 2, 3]), None);
    assert_eq!(
        try_read_server_message(&[4, 1, 2, 3, 4]),
        Some(ServerMessage::ChunkDone(0x0403_0201))
    );
    assert_eq!(try_read_server_message(&[]), Some(ServerMessage::Other));
    assert_eq!(try_read_server_message(&[1]), Some(ServerMessage::WorldInfo));
    for index in [0u32, 77, 70000, u32::MAX] {
        let payload = new_client_macro_block_request(index);
        let mut announcement = vec![4u8];
        announcement.extend_from_slice(&payload[1..5]);
        assert_eq!(
            try_read_server_message(&announcement),
            Some(ServerMessage::ChunkDone(index))
        );
    }
}

#[test]
fn a_world_of_two_columns_is_generated_column_by_column() {
    assert_eq!(MAX_WORLD_WIDTH_MACRO, 1 << 27);
    let mut plan = GenerationPlan::new();
    let mut asked = Vec::new();
    let mut request = plan.on_world_info(2);
    assert_eq!(request, Some(0));
    let mut steps = 0;
    while let Some(index) = request {
        asked.push(index);
        let step = plan.on_chunk_done(index);
        steps += 1;
        assert_eq!((step.column, step.row), (index % 2, index / 2));
        assert!(step.first_time);
        assert_eq!(step.finished, steps == 64);
        request = step.request;
    }
    assert_eq!(steps, 64);
    let expected: Vec<u32> = (0..2u32)
        .flat_map(|x| (0..32u32).map(move |y| y * 2 + x))
        .collect();
    assert_eq!(asked, expected);
}

#[test]
fn a_chunk_that_comes_twice_counts_once() {
    let mut plan = GenerationPlan::new();
    assert_eq!(plan.on_world_info(1), Some(0));
    assert_eq!(
        plan.on_chunk_done(0),
        ChunkStep { column: 0, row: 0, first_time: true, finished: false, request: Some(1) }
    );
    assert_eq!(
        plan.on_chunk_done(0),
        ChunkStep { column: 0, row: 0, first_time: false, finished: false, request: Some(2) }
    );
    for index in 1..31 {
        let step = plan.on_chunk_done(index);
        assert!(step.first_time);
        assert!(!step.finished);
        assert_eq!((step.column, step.row), (0, index));
    }
    let last = plan.on_chunk_done(31);
    assert!(last.finished);
    assert_eq!(last.request, None);
}

#[test]
fn before_the_world_is_described_its_width_is_512() {
    let mut plan = GenerationPlan::new();
    let step = plan.on_chunk_done(513);
    assert_eq!(
        step,
        ChunkStep { column: 1, row: 1, first_time: true, finished: false, request: None }
    );
}

#[test]
fn a_world_of_no_width_asks_for_nothing() {
    let mut plan = GenerationPlan::new();
    assert_eq!(plan.on_world_info(0), None);
    assert_eq!(plan.on_world_info(1), Some(0));
    assert_eq!(plan.on_world_info(1), Some(1));
    let step = plan.on_chunk_done(0);
    assert_eq!(step.request, Some(2));
}
