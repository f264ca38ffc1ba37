use tetris::grid::Grid;
use tetris::tetris::{TBlockColor, TBlockType, TetrisBlock};

#[test]
fn offsets_per_shape() {
    assert_eq!(TBlockType::IBlock.get(), [(0, 0), (1, 0), (2, 0), (3, 0)]);
    assert_eq!(TBlockType::LBlock.get(), [(0, 0), (0, 1), (0, 2), (1, 2)]);
    assert_eq!(TBlockType::JBlock.get(), [(1, 0), (1, 1), (1, 2), (0, 2)]);
    assert_eq!(TBlockType::ZBlock.get(), [(0, 0), (1, 0), (1, 1), (2, 1)]);
    assert_eq!(TBlockType::SBlock.get(), [(0, 1), (1, 1), (1, 0), (2, 0)]);
    assert_eq!(TBlockType::TBlock.get(), [(0, 1), (1, 1), (1, 0), (2, 1)]);
    assert_eq!(TBlockType::OBlock.get(), [(0, 0), (0, 1), (1, 0), (1, 1)]);
}

#[test]
fn colors_per_shape() {
    let expected = [
        (TBlockType::IBlock, TBlockColor::Blue),
        (TBlockType::JBlock, TBlockColor::Green),
        (TBlockType::LBlock, TBlockColor::Orange),
        (TBlockType::ZBlock, TBlockColor::Red),
        (TBlockType::SBlock, TBlockColor::Magenta),
        (TBlockType::TBlock, TBlockColor::Cyan),
        (TBlockType::OBlock, TBlockColor::Yellow),
    ];
    for (shape, color) in expected {
        let block = TetrisBlock::new(4, 0, shape).unwrap();
        let (_pos, c) = block.get_pos();
        assert_eq!(c, color);
    }
}

#[test]
fn values_lists_all_seven() {
    let v = TBlockType::values();
    assert_eq!(
        v,
        [
            TBlockType::IBlock,
            TBlockType::JBlock,
            TBlockType::LBlock,
            TBlockType::ZBlock,
            TBlockType::TBlock,
            TBlockType::SBlock,
            TBlockType::OBlock,
        ]
    );
}

#[test]
fn random_always_yields_a_catalog_shape() {
    let v = TBlockType::values();
    for _ in 0..200 {
        let r = TBlockType::random();
        assert!(v.iter().any(|s| *s == r));
    }
}

#[test]
fn spawn_adds_offsets_to_origin() {
    let block = TetrisBlock::new(4, 0, TBlockType::IBlock).unwrap();
    let (pos, color) = block.get_pos();
    assert_eq!(pos, [(4, 0), (5, 0), (6, 0), (7, 0)]);
    assert_eq!(color, TBlockColor::Blue);

    let block = TetrisBlock::new(3, 5, TBlockType::TBlock).unwrap();
    let (pos, _) = block.get_pos();
    assert_eq!(pos, [(3, 6), (4, 6), (4, 5), (5, 6)]);
}

#[test]
fn spawn_refused_outside_the_field() {
    assert!(TetrisBlock::new(8, 0, TBlockType::IBlock).is_none());
    assert!(TetrisBlock::new(0, 19, TBlockType::OBlock).is_none());
    assert!(TetrisBlock::new(250, 250, TBlockType::TBlock).is_none());
    assert!(TetrisBlock::new(6, 0, TBlockType::IBlock).is_some());
    assert!(TetrisBlock::new(0, 18, TBlockType::OBlock).is_some());
}

#[test]
fn move_down_moves_all_four_cells() {
    let g = Grid::new();
    let mut b = TetrisBlock::new(1, 0, TBlockType::IBlock).unwrap();
    assert!(b.move_down(&g));
    let (pos, _) = b.get_pos();
    assert_eq!(pos, [(1, 1), (2, 1), (3, 1), (4, 1)]);
}

#[test]
fn floor_rejects_move_down() {
    let g = Grid::new();
    let mut b = TetrisBlock::new(0, 18, TBlockType::OBlock).unwrap();
    let (before, _) = b.get_pos();
    assert!(!b.move_down(&g));
    let (after, _) = b.get_pos();
    assert_eq!(before, after);
}

#[test]
fn left_wall_rejects_move_left() {
    let g = Grid::new();
    let mut b = TetrisBlock::new(0, 18, TBlockType::OBlock).unwrap();
    let (before, _) = b.get_pos();
    b.move_left(&g);
    let (after, _) = b.get_pos();
    assert_eq!(before, after);
}

#[test]
fn right_wall_rejects_move_right() {
    let g = Grid::new();
    let mut b = TetrisBlock::new(8, 0, TBlockType::OBlock).unwrap();
    let (before, _) = b.get_pos();
    b.move_right(&g);
    let (after, _) = b.get_pos();
    assert_eq!(before, after);
}

#[test]
fn occupied_cell_rejects_whole_move() {
    let mut g = Grid::new();
    // Only the second cell of the shifted piece would hit this block; the
    // move must still leave every cell in place.
    g.set(5, 10, TBlockColor::Red);
    let mut b = TetrisBlock::new(4, 9, TBlockType::IBlock).unwrap();
    let (before, _) = b.get_pos();
    assert_eq!(before, [(4, 9), (5, 9), (6, 9), (7, 9)]);
    assert!(!b.move_down(&g));
    let (after, _) = b.get_pos();
    assert_eq!(before, after);
}

#[test]
fn rotate_clockwise_about_truncated_centroid() {
    let g = Grid::new();
    let mut b = TetrisBlock::new(1, 0, TBlockType::IBlock).unwrap();
    assert!(b.move_down(&g));
    assert!(b.move_down(&g));
    let (pos, _) = b.get_pos();
    assert_eq!(pos, [(1, 2), (2, 2), (3, 2), (4, 2)]);
    // Centroid (2, 2); clockwise turn maps (x, y) to (2 + y - 2, 2 - (x - 2)).
    b.rotate_clockwise(&g);
    let (pos, _) = b.get_pos();
    assert_eq!(pos, [(2, 3), (2, 2), (2, 1), (2, 0)]);
}

#[test]
fn rotation_blocked_by_ceiling_is_rejected() {
    let g = Grid::new();
    let mut b = TetrisBlock::new(1, 0, TBlockType::IBlock).unwrap();
    let (before, _) = b.get_pos();
    b.rotate_clockwise(&g);
    let (after, _) = b.get_pos();
    assert_eq!(before, after);
}

#[test]
fn rotation_round_trip_restores_the_piece() {
    // The four x-coordinates of this piece sum to 20, a multiple of four, so
    // a clockwise turn followed by a counter-clockwise turn restores it.
    let g = Grid::new();
    let mut b = TetrisBlock::new(4, 5, TBlockType::TBlock).unwrap();
    let (before, _) = b.get_pos();
    assert_eq!(before, [(4, 6), (5, 6), (5, 5), (6, 6)]);
    b.rotate_clockwise(&g);
    let (mid, _) = b.get_pos();
    assert_ne!(before, mid);
    b.rotate_counter_clockwise(&g);
    let (after, _) = b.get_pos();
    assert_eq!(before, after);
}

#[test]
fn reverse_rotation_round_trip_restores_the_piece() {
    // The four y-coordinates of this piece sum to 8, a multiple of four, so
    // a counter-clockwise turn followed by a clockwise turn restores it.
    let g = Grid::new();
    let mut b = TetrisBlock::new(1, 0, TBlockType::IBlock).unwrap();
    assert!(b.move_down(&g));
    assert!(b.move_down(&g));
    let (before, _) = b.get_pos();
    assert_eq!(before, [(1, 2), (2, 2), (3, 2), (4, 2)]);
    b.rotate_counter_clockwise(&g);
    let (mid, _) = b.get_pos();
    assert_eq!(mid, [(2, 1), (2, 2), (2, 3), (2, 4)]);
    b.rotate_clockwise(&g);
    let (after, _) = b.get_pos();
    assert_eq!(before, after);
}

#[test]
fn o_piece_round_trip_drifts_by_one_cell() {
    // The x-coordinates of an O-shaped piece always sum to 2 modulo 4, so the
    // truncated centroid moves under the first turn and the round trip comes
    // back shifted one cell up and to the left.
    let g = Grid::new();
    let mut b = TetrisBlock::new(4, 5, TBlockType::OBlock).unwrap();
    let (before, _) = b.get_pos();
    assert_eq!(before, [(4, 5), (4, 6), (5, 5), (5, 6)]);
    b.rotate_clockwise(&g);
    b.rotate_counter_clockwise(&g);
    let (after, _) = b.get_pos();
    assert_eq!(after, [(3, 4), (3, 5), (4, 4), (4, 5)]);
}

#[test]
fn collision_predicate_covers_bounds_and_occupancy() {
    let mut g = Grid::new();
    g.set(3, 4, TBlockColor::Red);
    let b = TetrisBlock::new(0, 0, TBlockType::OBlock).unwrap();
    assert!(b.is_colliding(&g, (-1, 0)));
    assert!(b.is_colliding(&g, (0, -1)));
    assert!(b.is_colliding(&g, (10, 0)));
    assert!(b.is_colliding(&g, (0, 20)));
    assert!(b.is_colliding(&g, (3, 4)));
    assert!(!b.is_colliding(&g, (0, 0)));
    assert!(!b.is_colliding(&g, (9, 19)));
}
