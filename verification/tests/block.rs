use the_blockheads_tools_lib::{
    BhError, Block, BlockContent, BlockMut, BlockType, BlockView, BlockViewMut, RecordByte,
};

fn counting_record() -> [u8; 64] {
    let mut record = [0u8; 64];
    for (i, byte) in record.iter_mut().enumerate() {
        *byte = (i * 5 + 3) as u8;
    }
    record
}

fn reference_dump(record: &[u8; 64]) -> String {
    let rows: Vec<String> = record
        .chunks(8)
        .map(|row| {
            let cells: Vec<String> = row.iter().map(|byte| format!("{:02X}", byte)).collect();
            cells.join(" ")
        })
        .collect();
    rows.join("\n")
}

#[test]
fn hex_dump_of_zeros() {
    let record = [0u8; 64];
    let dump = Block::new(&record).to_hex_string_single_allocation();
    let row = "00 00 00 00 00 00 00 00";
    let expected = [row; 8].join("\n");
    assert_eq!(dump, expected);
    assert_eq!(dump.len(), 191);
}

#[test]
fn hex_dump_golden() {
    let mut record = [0u8; 64];
    record[0] = 0x01;
    record[1] = 0x0a;
    record[2] = 0xff;
    record[3] = 0x3d;
    record[7] = 0x9c;
    record[8] = 0xab;
    record[63] = 0xef;
    let dump = Block::new(&record).to_hex_string_single_allocation();
    let expected = "01 0A FF 3D 00 00 00 9C\n\
                    AB 00 00 00 00 00 00 00\n\
                    00 00 00 00 00 00 00 00\n\
                    00 00 00 00 00 00 00 00\n\
                    00 00 00 00 00 00 00 00\n\
                    00 00 00 00 00 00 00 00\n\
                    00 00 00 00 00 00 00 00\n\
                    00 00 00 00 00 00 00 EF";
    assert_eq!(dump, expected);
}

#[test]
fn hex_dump_matches_the_formatter() {
    let record = counting_record();
    let dump = Block::new(&record).to_hex_string_single_allocation();
    assert_eq!(dump, reference_dump(&record));
    let mut all = [0u8; 64];
    for start in [0u8, 64, 128, 192] {
        for (i, byte) in all.iter_mut().enumerate() {
            *byte = start + i as u8;
        }
        assert_eq!(
            Block::new(&all).to_hex_string_single_allocation(),
            reference_dump(&all)
        );
    }
}

#[test]
fn fields_are_read_at_their_places() {
    let mut record = [0xeeu8; 64];
    record[0] = 1;
    record[1] = 6;
    record[2] = 77;
    record[3] = 61;
    let block = Block::new(&record);
    assert_eq!(block.fg_raw(), 1);
    assert_eq!(block.bg_raw(), 6);
    assert_eq!(block.content_raw(), 61);
    assert_eq!(block.fg().unwrap(), BlockType::Stone);
    assert_eq!(block.bg().unwrap(), BlockType::Dirt);
    assert_eq!(block.content().unwrap(), BlockContent::CopperOre);
    assert_eq!(block.bytes(), &record);
}

#[test]
fn unknown_codes_are_errors_that_carry_the_byte() {
    let mut record = [0u8; 64];
    record[0] = 23;
    record[1] = 200;
    record[3] = 3;
    let block = Block::new(&record);
    assert!(matches!(block.fg(), Err(BhError::InvalidBlockIdError(23))));
    assert!(matches!(block.bg(), Err(BhError::InvalidBlockIdError(200))));
    assert!(matches!(
        block.content(),
        Err(BhError::InvalidBlockContentIdError(3))
    ));
    assert_eq!(block.fg_raw(), 23);
}

#[test]
fn a_block_can_be_copied() {
    let record = counting_record();
    let block = Block::new(&record);
    let copy = block;
    assert_eq!(block.fg_raw(), copy.fg_raw());
    assert_eq!(block.0, copy.0);
}

#[test]
fn setters_change_one_byte_each() {
    let mut record = counting_record();
    let before = record;
    {
        let mut block = BlockMut::new(&mut record);
        block.set_fg(BlockType::Sand);
        assert_eq!(block.fg_raw(), 8);
        assert_eq!(block.fg().unwrap(), BlockType::Sand);
        block.set_bg(BlockType::Lava);
        assert_eq!(block.bg().unwrap(), BlockType::Lava);
        block.set_fg_content(BlockContent::Coal);
        assert_eq!(block.content_raw(), 65);
        assert_eq!(block.content().unwrap(), BlockContent::Coal);
    }
    for i in 0..64 {
        let expected = match i {
            0 => 8,
            1 => 31,
            3 => 65,
            _ => before[i],
        };
        assert_eq!(record[i], expected, "byte {i}");
    }
}

#[test]
fn raw_codes_can_be_written_too() {
    let mut record = [0u8; 64];
    {
        let mut block = BlockMut::new(&mut record);
        block.set_fg(23u8);
        block.set_bg(255u8);
        assert!(matches!(block.fg(), Err(BhError::InvalidBlockIdError(23))));
    }
    assert_eq!(&record[..4], &[23, 255, 0, 0]);
}

#[test]
fn the_byte_of_a_value() {
    assert_eq!(7u8.to_byte(), 7);
    assert_eq!(BlockContent::GoldNuggets.to_byte(), 66);
    assert_eq!(BlockContent::Empty.to_byte(), 0);
    assert_eq!(BlockType::Stone.to_byte(), 1);
    assert_eq!(BlockType::LuminousPlaster.to_byte(), 77);
}

#[test]
fn a_block_stands_for_its_bytes() {
    let mut record = counting_record();
    let expected = record;
    {
        let block = Block::new(&record);
        assert_eq!(block[5], expected[5]);
        assert_eq!(*block, expected);
        assert_eq!(block.len(), 64);
    }
    let block = BlockMut::new(&mut record);
    assert_eq!(block[63], expected[63]);
    assert_eq!(*block, expected);
}

#[test]
fn a_content_that_was_set_is_the_content_that_is_read() {
    let contents = [
        BlockContent::Empty,
        BlockContent::Flint,
        BlockContent::Clay,
        BlockContent::Workbench,
        BlockContent::PortalGate,
        BlockContent::CopperOre,
        BlockContent::TinOre,
        BlockContent::IronOre,
        BlockContent::Oil,
        BlockContent::Coal,
        BlockContent::GoldNuggets,
        BlockContent::PlatinumOre,
        BlockContent::TitaniumOre,
    ];
    for content in contents {
        let mut record = [0xffu8; 64];
        {
            let mut block = BlockMut::new(&mut record);
            block.set_fg_content(content);
            assert_eq!(block.content().unwrap(), content);
        }
        assert_eq!(record[3], content.to_u8());
        assert_eq!(record[0], 0xff);
        assert_eq!(record[2], 0xff);
        assert_eq!(record[4], 0xff);
    }
}
