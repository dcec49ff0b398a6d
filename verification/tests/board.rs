use game_of_life::board::Board;
use game_of_life::cell::CellState;

fn board_with(width: u32, height: u32, alive: &[(u32, u32)]) -> Board {
    let mut board = Board::new(width, height);
    for &(x, y) in alive {
        board.set_cell(x, y, CellState::Alive);
    }
    board
}

fn alive_cells_of(board: &Board) -> Vec<(u32, u32)> {
    let mut alive = Vec::new();
    for y in 0..board.height() {
        for x in 0..board.width() {
            if board.get_cell(x, y) == Some(&CellState::Alive) {
                alive.push((x, y));
            }
        }
    }
    alive
}

fn advance(board: Board, generations: u32) -> Board {
    let mut current = board;
    let mut next = Board::new(current.width(), current.height());
    for _ in 0..generations {
        current.update(&mut next);
        std::mem::swap(&mut current, &mut next);
    }
    current
}

#[test]
fn new_board_is_all_dead() {
    let board = Board::new(4, 3);
    assert_eq!(board.width(), 4);
    assert_eq!(board.height(), 3);
    assert_eq!(board.cells().len(), 12);
    for y in 0..3 {
        for x in 0..4 {
            assert_eq!(board.get_cell(x, y), Some(&CellState::Dead));
        }
    }
}

#[test]
fn board_with_a_zero_dimension_is_empty() {
    let mut flat = Board::new(0, 5);
    assert_eq!(flat.cells().len(), 0);
    assert_eq!(flat.get_cell(0, 0), None);
    flat.set_cell(0, 0, CellState::Alive);
    assert_eq!(flat.cells().len(), 0);
    assert_eq!(flat.count_alive_neighbors(0, 0), 0);

    let thin = Board::new(5, 0);
    assert_eq!(thin.cells().len(), 0);
    assert_eq!(thin.get_cell(0, 0), None);

    let mut target = Board::new(0, 5);
    flat.update(&mut target);
    assert_eq!(target.cells().len(), 0);
}

#[test]
fn get_cell_outside_the_board_is_none() {
    let board = board_with(4, 3, &[(3, 2)]);
    assert_eq!(board.get_cell(3, 2), Some(&CellState::Alive));
    assert_eq!(board.get_cell(4, 2), None);
    assert_eq!(board.get_cell(3, 3), None);
    assert_eq!(board.get_cell(4, 3), None);
    assert_eq!(board.get_cell(100, 0), None);
    assert_eq!(board.get_cell(0, 100), None);
}

#[test]
fn get_cell_rejects_what_a_negative_coordinate_wraps_to() {
    let board = board_with(4, 3, &[(0, 0)]);
    let minus_one = (-1i32) as u32;
    assert_eq!(minus_one, u32::MAX);
    assert_eq!(board.get_cell(minus_one, 0), None);
    assert_eq!(board.get_cell(0, minus_one), None);
    assert_eq!(board.get_cell(minus_one, minus_one), None);
}

#[test]
fn get_cell_returns_the_last_state_set() {
    let mut board = Board::new(4, 3);
    assert_eq!(board.get_cell(1, 2), Some(&CellState::Dead));
    board.set_cell(1, 2, CellState::Alive);
    assert_eq!(board.get_cell(1, 2), Some(&CellState::Alive));
    board.set_cell(1, 2, CellState::Alive);
    assert_eq!(board.get_cell(1, 2), Some(&CellState::Alive));
    board.set_cell(1, 2, CellState::Dead);
    assert_eq!(board.get_cell(1, 2), Some(&CellState::Dead));
}

#[test]
fn set_cell_changes_one_cell_only() {
    let mut board = Board::new(4, 3);
    board.set_cell(2, 1, CellState::Alive);
    assert_eq!(alive_cells_of(&board), vec![(2, 1)]);
    // row-major storage: the cell at (2, 1) is the seventh
    let mut expected = vec![CellState::Dead; 12];
    expected[6] = CellState::Alive;
    assert_eq!(board.cells(), &expected);
}

#[test]
fn set_cell_outside_the_board_changes_nothing() {
    let mut board = board_with(4, 3, &[(0, 0), (3, 2), (1, 1)]);
    let before = board.cells().clone();
    board.set_cell(4, 0, CellState::Alive);
    board.set_cell(0, 3, CellState::Alive);
    board.set_cell(4, 3, CellState::Dead);
    board.set_cell(u32::MAX, 1, CellState::Alive);
    board.set_cell(1, u32::MAX, CellState::Dead);
    board.set_cell(u32::MAX, u32::MAX, CellState::Alive);
    assert_eq!(board.cells(), &before);
    assert_eq!(board.width(), 4);
    assert_eq!(board.height(), 3);
}

#[test]
fn set_cell_past_the_end_of_a_row_does_not_spill_into_the_next() {
    // (4, 0) would be position 4, which is the cell (0, 1)
    let mut board = Board::new(4, 3);
    board.set_cell(4, 0, CellState::Alive);
    assert_eq!(board.get_cell(0, 1), Some(&CellState::Dead));
    assert_eq!(alive_cells_of(&board), vec![]);
}

#[test]
fn get_cell_mut_writes_through() {
    let mut board = Board::new(4, 3);
    match board.get_cell_mut(3, 0) {
        Some(cell) => {
            assert_eq!(*cell, CellState::Dead);
            *cell = CellState::Alive;
        }
        None => panic!("(3, 0) is on the board"),
    }
    assert_eq!(board.get_cell(3, 0), Some(&CellState::Alive));
    assert_eq!(alive_cells_of(&board), vec![(3, 0)]);
}

#[test]
fn get_cell_mut_outside_the_board_is_none() {
    let mut board = Board::new(4, 3);
    assert!(board.get_cell_mut(4, 0).is_none());
    assert!(board.get_cell_mut(0, 3).is_none());
    assert!(board.get_cell_mut(u32::MAX, 0).is_none());
    assert_eq!(alive_cells_of(&board), vec![]);
}

#[test]
fn lone_cell_counts_once_for_each_of_its_neighbors() {
    let board = board_with(5, 5, &[(2, 2)]);
    for y in 0..5u32 {
        for x in 0..5u32 {
            let adjacent = x.abs_diff(2) <= 1 && y.abs_diff(2) <= 1 && (x, y) != (2, 2);
            let expected = if adjacent { 1 } else { 0 };
            assert_eq!(board.count_alive_neighbors(x, y), expected, "at ({}, {})", x, y);
        }
    }
}

#[test]
fn a_cell_does_not_count_itself() {
    let board = board_with(3, 3, &[(1, 1)]);
    assert_eq!(board.count_alive_neighbors(1, 1), 0);
}

#[test]
fn full_neighborhood_counts_eight() {
    let mut board = Board::new(3, 3);
    for y in 0..3 {
        for x in 0..3 {
            board.set_cell(x, y, CellState::Alive);
        }
    }
    assert_eq!(board.count_alive_neighbors(1, 1), 8);
    // on the border the board does not wrap: off-board neighbours are dead
    assert_eq!(board.count_alive_neighbors(0, 0), 3);
    assert_eq!(board.count_alive_neighbors(2, 0), 3);
    assert_eq!(board.count_alive_neighbors(0, 2), 3);
    assert_eq!(board.count_alive_neighbors(2, 2), 3);
    assert_eq!(board.count_alive_neighbors(1, 0), 5);
    assert_eq!(board.count_alive_neighbors(0, 1), 5);
    assert_eq!(board.count_alive_neighbors(2, 1), 5);
    assert_eq!(board.count_alive_neighbors(1, 2), 5);
}

#[test]
fn neighbors_do_not_wrap_around_the_edges() {
    // live cells on the right and bottom edges are no neighbours of (0, 0)
    let board = board_with(4, 4, &[(3, 0), (3, 1), (0, 3), (1, 3), (3, 3)]);
    assert_eq!(board.count_alive_neighbors(0, 0), 0);
    // the last cell of a row is no neighbour of the first cell of the next
    assert_eq!(board.count_alive_neighbors(0, 1), 0);
    assert_eq!(board.count_alive_neighbors(0, 2), 2);
}

#[test]
fn count_alive_neighbors_of_a_coordinate_off_the_board() {
    let board = board_with(3, 3, &[(2, 0), (2, 1), (2, 2), (0, 2)]);
    // just right of the board: the column x = 2 is adjacent
    assert_eq!(board.count_alive_neighbors(3, 1), 3);
    assert_eq!(board.count_alive_neighbors(3, 3), 1);
    assert_eq!(board.count_alive_neighbors(4, 1), 0);
    assert_eq!(board.count_alive_neighbors(u32::MAX, u32::MAX), 0);
    assert_eq!(board.count_alive_neighbors(u32::MAX, 0), 0);
    assert_eq!(board.count_alive_neighbors(0, u32::MAX), 0);
}

#[test]
fn rule_for_a_live_cell() {
    for n in 0..=8u8 {
        let expected = if n == 2 || n == 3 { CellState::Alive } else { CellState::Dead };
        assert_eq!(CellState::Alive.next(n), expected, "with {} neighbours", n);
    }
}

#[test]
fn rule_for_a_dead_cell() {
    for n in 0..=8u8 {
        let expected = if n == 3 { CellState::Alive } else { CellState::Dead };
        assert_eq!(CellState::Dead.next(n), expected, "with {} neighbours", n);
    }
}

#[test]
fn cell_state_as_number() {
    assert_eq!(CellState::Alive.as_u8(), 1);
    assert_eq!(CellState::Dead.as_u8(), 0);
    assert!(CellState::Alive.is_alive());
    assert!(!CellState::Dead.is_alive());
}

#[test]
fn update_turns_a_blinker() {
    let horizontal = board_with(5, 5, &[(1, 2), (2, 2), (3, 2)]);
    let mut vertical = Board::new(5, 5);
    horizontal.update(&mut vertical);
    assert_eq!(alive_cells_of(&vertical), vec![(2, 1), (2, 2), (2, 3)]);
    let mut back = Board::new(5, 5);
    vertical.update(&mut back);
    assert_eq!(alive_cells_of(&back), vec![(1, 2), (2, 2), (3, 2)]);
    assert_eq!(back.cells(), horizontal.cells());
}

#[test]
fn update_leaves_the_source_unchanged() {
    let source = board_with(5, 5, &[(1, 2), (2, 2), (3, 2)]);
    let before = source.cells().clone();
    let mut target = Board::new(5, 5);
    source.update(&mut target);
    assert_eq!(source.cells(), &before);
}

#[test]
fn update_overwrites_every_cell_of_the_target() {
    let source = board_with(4, 4, &[(0, 0)]);
    let mut target = Board::new(4, 4);
    for y in 0..4 {
        for x in 0..4 {
            target.set_cell(x, y, CellState::Alive);
        }
    }
    source.update(&mut target);
    assert_eq!(alive_cells_of(&target), vec![]);
    assert_eq!(target.width(), 4);
    assert_eq!(target.height(), 4);
}

#[test]
fn update_reads_only_the_old_generation() {
    // three in a row on a board one cell high: the ends die, the middle
    // survives; deciding the middle from the already dead left end would
    // kill it
    let row = board_with(3, 1, &[(0, 0), (1, 0), (2, 0)]);
    let next = advance(row, 1);
    assert_eq!(alive_cells_of(&next), vec![(1, 0)]);
}

#[test]
fn update_on_a_board_that_is_not_square() {
    let board = board_with(5, 2, &[(3, 0), (4, 0), (4, 1)]);
    let next = advance(board, 1);
    assert_eq!(alive_cells_of(&next), vec![(3, 0), (4, 0), (3, 1), (4, 1)]);
}

#[test]
fn glider_moves_one_cell_diagonally_in_four_generations() {
    let glider = [(1, 0), (2, 1), (0, 2), (1, 2), (2, 2)];
    let board = advance(board_with(10, 10, &glider), 4);
    let mut moved: Vec<(u32, u32)> = glider.iter().map(|&(x, y)| (x + 1, y + 1)).collect();
    moved.sort_by_key(|&(x, y)| (y, x));
    assert_eq!(alive_cells_of(&board), moved);
    assert_eq!(alive_cells_of(&board), vec![(2, 1), (3, 2), (1, 3), (2, 3), (3, 3)]);
}

#[test]
fn glider_after_each_generation() {
    let start = board_with(10, 10, &[(1, 0), (2, 1), (0, 2), (1, 2), (2, 2)]);
    let one = advance(start, 1);
    assert_eq!(alive_cells_of(&one), vec![(0, 1), (2, 1), (1, 2), (2, 2), (1, 3)]);
    let two = advance(one, 1);
    assert_eq!(alive_cells_of(&two), vec![(2, 1), (0, 2), (2, 2), (1, 3), (2, 3)]);
    let three = advance(two, 1);
    assert_eq!(alive_cells_of(&three), vec![(1, 1), (2, 2), (3, 2), (1, 3), (2, 3)]);
}

#[test]
fn block_is_unchanged_by_any_number_of_generations() {
    for &(width, height) in &[(4u32, 4u32), (5, 4), (4, 7), (10, 10)] {
        let block = [(1, 1), (2, 1), (1, 2), (2, 2)];
        let start = board_with(width, height, &block);
        let expected = start.cells().clone();
        let mut board = start;
        for generation in 1..=6 {
            board = advance(board, 1);
            assert_eq!(board.cells(), &expected, "{}x{} after {}", width, height, generation);
        }
    }
}

#[test]
fn block_in_a_corner_is_unchanged() {
    let start = board_with(4, 4, &[(2, 2), (3, 2), (2, 3), (3, 3)]);
    let expected = start.cells().clone();
    let board = advance(start, 3);
    assert_eq!(board.cells(), &expected);
    let tight = board_with(2, 2, &[(0, 0), (1, 0), (0, 1), (1, 1)]);
    let expected = tight.cells().clone();
    assert_eq!(advance(tight, 5).cells(), &expected);
}

#[test]
fn randomize_brings_every_third_cell_to_life() {
    let mut board = board_with(4, 3, &[(1, 0), (2, 0)]);
    board.randomize();
    let a = CellState::Alive;
    let d = CellState::Dead;
    assert_eq!(board.cells(), &vec![a, d, d, a, d, d, a, d, d, a, d, d]);
    assert_eq!(alive_cells_of(&board), vec![(0, 0), (3, 0), (2, 1), (1, 2)]);
    assert_eq!(board.width(), 4);
    assert_eq!(board.height(), 3);
}
