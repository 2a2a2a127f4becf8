use the_blockheads_tools_lib::selected_block::SelectedBlock;
use the_blockheads_tools_lib::BlockCoord;

#[test]
fn nothing_is_picked_at_first() {
    let selected = SelectedBlock::new();
    assert_eq!(*selected.coord(), None);
    assert_eq!(selected.uniform(), &[0, 0, 0, 0]);
}

#[test]
fn picking_a_block_twice_lets_go_of_it() {
    let mut selected = SelectedBlock::new();
    let coord = BlockCoord::new(8000, 519).unwrap();
    selected.update(Some(coord));
    assert_eq!(*selected.coord(), Some(coord));
    assert_eq!(selected.uniform(), &[1, 8000, 519, 0]);
    selected.update(Some(BlockCoord::new(8000, 519).unwrap()));
    assert_eq!(*selected.coord(), None);
    assert_eq!(selected.uniform(), &[0, 0, 0, 0]);
}

#[test]
fn picking_another_block_moves_the_choice() {
    let mut selected = SelectedBlock::new();
    selected.update(Some(BlockCoord::new(1, 2).unwrap()));
    selected.update(Some(BlockCoord::new(1, 3).unwrap()));
    assert_eq!(*selected.coord(), Some(BlockCoord::new(1, 3).unwrap()));
    assert_eq!(selected.uniform(), &[1, 1, 3, 0]);
    selected.update(Some(BlockCoord::new(2, 3).unwrap()));
    assert_eq!(selected.uniform(), &[1, 2, 3, 0]);
    selected.update(None);
    assert_eq!(*selected.coord(), None);
    assert_eq!(selected.uniform(), &[0, 0, 0, 0]);
    selected.update(None);
    assert_eq!(*selected.coord(), None);
}

#[test]
fn a_column_beyond_32_bits_is_cut() {
    let mut selected = SelectedBlock::new();
    selected.update(Some(BlockCoord::new(0x1_0000_0005, 1023).unwrap()));
    assert_eq!(selected.uniform(), &[1, 5, 1023, 0]);
    assert_eq!(
        *selected.coord(),
        Some(BlockCoord::new(0x1_0000_0005, 1023).unwrap())
    );
}
