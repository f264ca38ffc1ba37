use tetris::engine::{App, Command};
use tetris::grid::Grid;
use tetris::tetris::{TBlockColor, TBlockType, TetrisBlock};
use tetris::{NUM_COLS, NUM_ROWS};

fn fill_row(g: &mut Grid, y: usize, color: TBlockColor) {
    for x in 0..NUM_COLS {
        g.set(x, y, color);
    }
}

fn high_piece() -> TetrisBlock {
    TetrisBlock::new(4, 0, TBlockType::TBlock).unwrap()
}

#[test]
fn scoring_table_per_rows_cleared() {
    let rewards = [(0usize, 0u128), (1, 100), (2, 300), (3, 500), (4, 800)];
    for (n, points) in rewards {
        let mut g = Grid::new();
        for y in NUM_ROWS - n..NUM_ROWS {
            fill_row(&mut g, y, TBlockColor::Red);
        }
        let mut app = App::from_parts(g, high_piece(), 0);
        app.clear_line();
        assert_eq!(app.score(), points);
    }
}

#[test]
fn new_game_starts_clean() {
    let app = App::new(TBlockType::IBlock);
    assert_eq!(app.score(), 0);
    assert!(!app.exited());
    assert!(!app.is_game_over());
    let (pos, color) = app.block().get_pos();
    assert_eq!(pos, [(1, 0), (2, 0), (3, 0), (4, 0)]);
    assert_eq!(color, TBlockColor::Blue);
    for y in 0..NUM_ROWS {
        for x in 0..NUM_COLS {
            assert!(!app.grid().occupied(x, y));
        }
    }
}

#[test]
fn default_game_starts_clean() {
    let app = App::default();
    assert_eq!(app.score(), 0);
    assert!(!app.exited());
    assert!(!app.is_game_over());
    let (pos, _) = app.block().get_pos();
    for (x, y) in pos {
        assert!((x as usize) < NUM_COLS && (y as usize) < 3);
    }
}

#[test]
fn i_piece_falls_nineteen_rows_then_locks_at_the_bottom() {
    let mut app = App::new(TBlockType::IBlock);
    for _ in 0..19 {
        app.step(TBlockType::IBlock);
    }
    // After 19 ticks the piece sits in the bottom row, still falling.
    let (pos, _) = app.block().get_pos();
    assert_eq!(pos, [(1, 19), (2, 19), (3, 19), (4, 19)]);
    assert_eq!(app.score(), 0);
    assert!(!app.grid().occupied(1, 19));

    // The next tick cannot descend: the piece locks at its spawn columns and
    // a fresh piece spawns at the top.
    app.step(TBlockType::IBlock);
    for x in 1..5 {
        assert_eq!(app.grid().cell(x, 19), TBlockColor::Blue);
    }
    let (pos, _) = app.block().get_pos();
    assert_eq!(pos, [(4, 0), (5, 0), (6, 0), (7, 0)]);
    assert_eq!(app.score(), 0);
    assert!(!app.is_game_over());
}

#[test]
fn completing_a_row_scores_100_and_shifts_rows_down() {
    let mut g = Grid::new();
    // The bottom row is full except for column 5.
    for x in 0..NUM_COLS {
        if x != 5 {
            g.set(x, 19, TBlockColor::Red);
        }
    }
    // A vertical I-shaped piece in column 5, rows 12 to 15.
    let mut b = TetrisBlock::new(4, 14, TBlockType::IBlock).unwrap();
    b.rotate_clockwise(&g);
    let (pos, _) = b.get_pos();
    assert_eq!(pos, [(5, 15), (5, 14), (5, 13), (5, 12)]);

    let mut app = App::from_parts(g, b, 0);
    for _ in 0..4 {
        app.step(TBlockType::TBlock);
        assert_eq!(app.score(), 0);
    }
    // The piece now rests on the bottom row; the next tick locks it, which
    // completes row 19: the row disappears, the rows above shift down by
    // one, and the score rises by exactly 100.
    app.step(TBlockType::TBlock);
    assert_eq!(app.score(), 100);
    for y in [17, 18, 19] {
        assert_eq!(app.grid().cell(5, y), TBlockColor::Blue);
    }
    assert!(!app.grid().occupied(5, 16));
    for x in 0..NUM_COLS {
        if x != 5 {
            assert!(!app.grid().occupied(x, 19));
        }
    }
    assert!(!app.is_game_over());
}

#[test]
fn blocked_spawn_ends_the_game() {
    let mut g = Grid::new();
    // The respawn origin area is occupied; a piece about to lock sits at the
    // bottom.
    g.set(5, 0, TBlockColor::Green);
    let b = TetrisBlock::new(4, 18, TBlockType::OBlock).unwrap();
    let mut app = App::from_parts(g, b, 0);
    assert!(!app.is_game_over());

    // Locking the piece spawns an I-shaped piece across columns 4 to 7 of the
    // top row, which overlaps the occupied cell: game over.
    app.step(TBlockType::IBlock);
    assert!(app.is_game_over());

    // The terminal state is inert: another tick changes nothing.
    let (pos_before, _) = app.block().get_pos();
    let score_before = app.score();
    app.step(TBlockType::TBlock);
    let (pos_after, _) = app.block().get_pos();
    assert_eq!(pos_before, pos_after);
    assert_eq!(score_before, app.score());
    assert!(app.is_game_over());
}

#[test]
fn commands_translate_and_rotate_the_piece() {
    let mut app = App::new(TBlockType::OBlock);
    let (pos, _) = app.block().get_pos();
    assert_eq!(pos, [(1, 0), (1, 1), (2, 0), (2, 1)]);

    app.apply_command(Command::MoveRight);
    let (pos, _) = app.block().get_pos();
    assert_eq!(pos, [(2, 0), (2, 1), (3, 0), (3, 1)]);

    app.apply_command(Command::MoveLeft);
    let (pos, _) = app.block().get_pos();
    assert_eq!(pos, [(1, 0), (1, 1), (2, 0), (2, 1)]);

    app.apply_command(Command::SoftDrop);
    let (pos, _) = app.block().get_pos();
    assert_eq!(pos, [(1, 1), (1, 2), (2, 1), (2, 2)]);

    assert_eq!(app.score(), 0);
    assert!(!app.exited());
}

#[test]
fn command_against_the_wall_is_rejected_whole() {
    let mut app = App::new(TBlockType::OBlock);
    app.apply_command(Command::MoveLeft);
    let (pos, _) = app.block().get_pos();
    assert_eq!(pos, [(0, 0), (0, 1), (1, 0), (1, 1)]);
    app.apply_command(Command::MoveLeft);
    let (pos, _) = app.block().get_pos();
    assert_eq!(pos, [(0, 0), (0, 1), (1, 0), (1, 1)]);
}

#[test]
fn failed_soft_drop_does_not_lock() {
    let g = Grid::new();
    let b = TetrisBlock::new(4, 18, TBlockType::OBlock).unwrap();
    let mut app = App::from_parts(g, b, 0);
    app.apply_command(Command::SoftDrop);
    // The piece stays in place and nothing is written into the grid.
    let (pos, _) = app.block().get_pos();
    assert_eq!(pos, [(4, 18), (4, 19), (5, 18), (5, 19)]);
    assert!(!app.grid().occupied(4, 19));
}

#[test]
fn exit_command_sets_the_exit_flag_only() {
    let mut app = App::new(TBlockType::TBlock);
    let (pos_before, _) = app.block().get_pos();
    app.apply_command(Command::Exit);
    assert!(app.exited());
    assert_eq!(app.score(), 0);
    let (pos_after, _) = app.block().get_pos();
    assert_eq!(pos_before, pos_after);
}

#[test]
fn rotate_commands_mirror_the_block_transforms() {
    let mut app = App::new(TBlockType::IBlock);
    app.apply_command(Command::SoftDrop);
    app.apply_command(Command::SoftDrop);
    let (pos, _) = app.block().get_pos();
    assert_eq!(pos, [(1, 2), (2, 2), (3, 2), (4, 2)]);
    app.apply_command(Command::RotateCW);
    let (pos, _) = app.block().get_pos();
    assert_eq!(pos, [(2, 3), (2, 2), (2, 1), (2, 0)]);
    // The x-coordinates of the original piece sum to 10, not a multiple of
    // four, so the counter turn lands one cell up and to the left of where
    // the piece started.
    app.apply_command(Command::RotateCCW);
    let (pos, _) = app.block().get_pos();
    assert_eq!(pos, [(0, 1), (1, 1), (2, 1), (3, 1)]);
}

#[test]
fn update_keeps_the_game_well_formed() {
    let mut app = App::default();
    for _ in 0..40 {
        app.update();
        let (pos, color) = app.block().get_pos();
        assert_ne!(color, TBlockColor::Empty);
        for (x, y) in pos {
            assert!((x as usize) < NUM_COLS && (y as usize) < NUM_ROWS);
        }
    }
}

#[test]
fn render_cells_overlays_the_piece_on_the_grid() {
    let mut g = Grid::new();
    g.set(0, 19, TBlockColor::Red);
    let b = TetrisBlock::new(4, 0, TBlockType::OBlock).unwrap();
    let app = App::from_parts(g, b, 0);
    let cells = app.render_cells();
    assert_eq!(cells.len(), NUM_ROWS);
    for row in &cells {
        assert_eq!(row.len(), NUM_COLS);
    }
    assert_eq!(cells[19][0], TBlockColor::Red);
    assert_eq!(cells[0][4], TBlockColor::Yellow);
    assert_eq!(cells[1][4], TBlockColor::Yellow);
    assert_eq!(cells[0][5], TBlockColor::Yellow);
    assert_eq!(cells[1][5], TBlockColor::Yellow);
    assert_eq!(cells[0][6], TBlockColor::Empty);
    assert_eq!(cells[10][5], TBlockColor::Empty);
}

#[test]
fn grid_cells_take_precedence_over_the_piece_in_a_render() {
    let mut g = Grid::new();
    g.set(4, 0, TBlockColor::Red);
    let b = TetrisBlock::new(4, 0, TBlockType::OBlock).unwrap();
    let app = App::from_parts(g, b, 0);
    let cells = app.render_cells();
    assert_eq!(cells[0][4], TBlockColor::Red);
    assert_eq!(cells[1][4], TBlockColor::Yellow);
}

#[test]
fn score_saturates_at_the_counter_limit() {
    let mut g = Grid::new();
    fill_row(&mut g, 19, TBlockColor::Red);
    let mut app = App::from_parts(g, high_piece(), u128::MAX - 50);
    app.clear_line();
    assert_eq!(app.score(), u128::MAX);
}
