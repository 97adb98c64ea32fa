use breakout::cell::Cell;
use breakout::error::GameError;
use breakout::field::{init_generate, Field, HEIGHT, WIDTH};

#[test]
fn standard_field_has_standard_extent() {
    let field = init_generate();
    assert_eq!(WIDTH, 150);
    assert_eq!(HEIGHT, 40);
    assert_eq!(field.width(), 150);
    assert_eq!(field.height(), 40);
}

#[test]
fn standard_field_counts_its_blocks() {
    // 149 columns between the side walls, six rows of blocks each.
    let field = init_generate();
    assert_eq!(field.remaining_blocks(), 894);
}

#[test]
fn new_field_reports_its_extent() {
    let field = Field::new(10, 12);
    assert_eq!(field.width(), 10);
    assert_eq!(field.height(), 12);
}

#[test]
fn new_field_has_walls_on_three_sides() {
    let field = Field::new(10, 10);
    for y in 0..=10u16 {
        assert_eq!(field.cell_at(0, y), Ok(Cell::Wall));
        assert_eq!(field.cell_at(10, y), Ok(Cell::Wall));
    }
    for x in 0..=10u16 {
        assert_eq!(field.cell_at(x, 0), Ok(Cell::Wall));
    }
}

#[test]
fn new_field_has_dead_zone_between_bottom_corners() {
    let field = Field::new(10, 10);
    for x in 1..=9u16 {
        assert_eq!(field.cell_at(x, 10), Ok(Cell::DeadZone));
    }
    assert_eq!(field.cell_at(0, 10), Ok(Cell::Wall));
    assert_eq!(field.cell_at(10, 10), Ok(Cell::Wall));
}

#[test]
fn new_field_has_blocks_in_rows_two_to_seven() {
    let field = Field::new(10, 10);
    for x in 1..=9u16 {
        assert_eq!(field.cell_at(x, 1), Ok(Cell::Empty));
        for y in 2..=7u16 {
            assert_eq!(field.cell_at(x, y), Ok(Cell::Block));
        }
        assert_eq!(field.cell_at(x, 8), Ok(Cell::Empty));
        assert_eq!(field.cell_at(x, 9), Ok(Cell::Empty));
    }
    assert_eq!(field.remaining_blocks(), 54);
}

#[test]
fn counter_matches_a_scan_of_the_grid() {
    let field = Field::new(23, 17);
    let mut seen = 0u32;
    for x in 0..=23u16 {
        for y in 0..=17u16 {
            if field.cell_at(x, y) == Ok(Cell::Block) {
                seen += 1;
            }
        }
    }
    assert_eq!(seen, 22 * 6);
    assert_eq!(field.remaining_blocks(), seen);
}

#[test]
fn low_field_keeps_blocks_above_the_bottom_row() {
    // Height 5: of the block rows only 2, 3 and 4 lie above the bottom row.
    let field = Field::new(10, 5);
    assert_eq!(field.remaining_blocks(), 27);
    assert_eq!(field.cell_at(4, 4), Ok(Cell::Block));
    assert_eq!(field.cell_at(4, 5), Ok(Cell::DeadZone));

    let flat = Field::new(10, 2);
    assert_eq!(flat.remaining_blocks(), 0);
    assert_eq!(flat.cell_at(4, 1), Ok(Cell::Empty));
    assert_eq!(flat.cell_at(4, 2), Ok(Cell::DeadZone));

    let lowest = Field::new(10, 1);
    assert_eq!(lowest.remaining_blocks(), 0);
    assert_eq!(lowest.cell_at(4, 0), Ok(Cell::Wall));
    assert_eq!(lowest.cell_at(4, 1), Ok(Cell::DeadZone));
}

#[test]
fn field_of_height_eight_has_all_six_block_rows() {
    let field = Field::new(10, 8);
    assert_eq!(field.remaining_blocks(), 54);
    assert_eq!(field.cell_at(1, 7), Ok(Cell::Block));
    assert_eq!(field.cell_at(1, 8), Ok(Cell::DeadZone));
}

#[test]
fn narrow_field_has_no_blocks() {
    let none = Field::new(0, 10);
    assert_eq!(none.width(), 0);
    assert_eq!(none.remaining_blocks(), 0);
    assert_eq!(none.cell_at(0, 5), Ok(Cell::Wall));
    assert_eq!(none.cell_at(0, 10), Ok(Cell::Wall));

    let walls_only = Field::new(1, 10);
    assert_eq!(walls_only.remaining_blocks(), 0);
    assert_eq!(walls_only.cell_at(1, 3), Ok(Cell::Wall));

    let one_column = Field::new(2, 10);
    assert_eq!(one_column.remaining_blocks(), 6);
    assert_eq!(one_column.cell_at(1, 3), Ok(Cell::Block));
}

#[test]
fn cell_at_rejects_coordinates_off_the_grid() {
    let field = Field::new(10, 12);
    assert_eq!(field.cell_at(11, 0), Err(GameError::OutOfBounds));
    assert_eq!(field.cell_at(0, 13), Err(GameError::OutOfBounds));
    assert_eq!(field.cell_at(11, 13), Err(GameError::OutOfBounds));
    assert_eq!(field.cell_at(u16::MAX, u16::MAX), Err(GameError::OutOfBounds));
    assert_eq!(field.cell_at(10, 12), Ok(Cell::Wall));
}

#[test]
fn cell_at_answers_the_same_when_asked_again() {
    let field = Field::new(10, 10);
    for x in 0..=11u16 {
        for y in 0..=11u16 {
            let first = field.cell_at(x, y);
            let second = field.cell_at(x, y);
            assert_eq!(first, second);
        }
    }
}

#[test]
fn clear_block_at_empties_the_cell_and_counts_down_by_one() {
    let mut field = Field::new(10, 10);
    assert_eq!(field.clear_block_at(5, 2), Ok(()));
    assert_eq!(field.cell_at(5, 2), Ok(Cell::Empty));
    assert_eq!(field.remaining_blocks(), 53);
    // Every other cell is as it was.
    let fresh = Field::new(10, 10);
    for x in 0..=10u16 {
        for y in 0..=10u16 {
            if (x, y) != (5, 2) {
                assert_eq!(field.cell_at(x, y), fresh.cell_at(x, y));
            }
        }
    }
}

#[test]
fn clear_block_at_refuses_a_cell_that_is_no_block() {
    let mut field = Field::new(10, 10);
    assert_eq!(field.clear_block_at(5, 8), Err(GameError::InvalidClear));
    assert_eq!(field.clear_block_at(0, 3), Err(GameError::InvalidClear));
    assert_eq!(field.clear_block_at(5, 10), Err(GameError::InvalidClear));
    assert_eq!(field.remaining_blocks(), 54);
    assert_eq!(field.cell_at(5, 8), Ok(Cell::Empty));
    assert_eq!(field.cell_at(0, 3), Ok(Cell::Wall));
    assert_eq!(field.cell_at(5, 10), Ok(Cell::DeadZone));
}

#[test]
fn clear_block_at_refuses_the_same_block_twice() {
    let mut field = Field::new(10, 10);
    assert_eq!(field.clear_block_at(3, 4), Ok(()));
    assert_eq!(field.clear_block_at(3, 4), Err(GameError::InvalidClear));
    assert_eq!(field.remaining_blocks(), 53);
}

#[test]
fn clear_block_at_refuses_coordinates_off_the_grid() {
    let mut field = Field::new(10, 10);
    assert_eq!(field.clear_block_at(11, 3), Err(GameError::OutOfBounds));
    assert_eq!(field.clear_block_at(3, 11), Err(GameError::OutOfBounds));
    assert_eq!(field.remaining_blocks(), 54);
}

#[test]
fn clearing_every_block_brings_the_count_to_zero() {
    let mut field = Field::new(10, 10);
    let mut left = 54u32;
    for x in 1..=9u16 {
        for y in 2..=7u16 {
            assert_eq!(field.clear_block_at(x, y), Ok(()));
            left -= 1;
            assert_eq!(field.remaining_blocks(), left);
        }
    }
    assert_eq!(field.remaining_blocks(), 0);
}

#[test]
fn cell_knows_whether_it_is_a_block() {
    assert!(Cell::Block.is_block());
    assert!(!Cell::Empty.is_block());
    assert!(!Cell::Wall.is_block());
    assert!(!Cell::DeadZone.is_block());
}
