//! The piece catalog and the actively falling piece.
//!
//! Seven tetromino shapes, each with a fixed layout of four relative offsets
//! and a fixed color; and `TetrisBlock`, the falling piece, whose translate
//! and rotate operations consult the grid and commit all four cells
//! atomically or not at all.
use vstd::prelude::*;

use crate::grid::Grid;
use crate::grid::colliding_at;
use crate::grid::in_bounds;
use crate::grid::empty_grid;
use crate::NUM_COLS;
use crate::NUM_ROWS;

verus! {

/// The seven tetromino shapes.
#[derive(Debug, Clone, Copy, PartialEq, Eq, Structural)]
pub enum TBlockType {
    IBlock,
    JBlock,
    LBlock,
    ZBlock,
    TBlock,
    SBlock,
    OBlock,
}

/// The occupancy states of a grid cell: one color per shape, or `Empty`.
#[derive(Copy, Clone, Debug, PartialEq, Eq, Structural)]
pub enum TBlockColor {
    Red,
    Green,
    Blue,
    Yellow,
    Magenta,
    Cyan,
    Orange,
    Empty,
}

/// The four relative cell offsets of a shape in its canonical orientation.
pub open spec fn offsets(b: TBlockType) -> Seq<(i8, i8)> {
    match b {
        TBlockType::IBlock => seq![(0i8, 0i8), (1i8, 0i8), (2i8, 0i8), (3i8, 0i8)],
        TBlockType::LBlock => seq![(0i8, 0i8), (0i8, 1i8), (0i8, 2i8), (1i8, 2i8)],
        TBlockType::JBlock => seq![(1i8, 0i8), (1i8, 1i8), (1i8, 2i8), (0i8, 2i8)],
        TBlockType::ZBlock => seq![(0i8, 0i8), (1i8, 0i8), (1i8, 1i8), (2i8, 1i8)],
        TBlockType::SBlock => seq![(0i8, 1i8), (1i8, 1i8), (1i8, 0i8), (2i8, 0i8)],
        TBlockType::TBlock => seq![(0i8, 1i8), (1i8, 1i8), (1i8, 0i8), (2i8, 1i8)],
        TBlockType::OBlock => seq![(0i8, 0i8), (0i8, 1i8), (1i8, 0i8), (1i8, 1i8)],
    }
}

/// The fixed color assigned to a shape.
pub open spec fn color_of(b: TBlockType) -> TBlockColor {
    match b {
        TBlockType::IBlock => TBlockColor::Blue,
        TBlockType::JBlock => TBlockColor::Green,
        TBlockType::LBlock => TBlockColor::Orange,
        TBlockType::ZBlock => TBlockColor::Red,
        TBlockType::SBlock => TBlockColor::Magenta,
        TBlockType::TBlock => TBlockColor::Cyan,
        TBlockType::OBlock => TBlockColor::Yellow,
    }
}

/// All seven shapes, in catalog order.
pub open spec fn all_shapes() -> Seq<TBlockType> {
    seq![
        TBlockType::IBlock,
        TBlockType::JBlock,
        TBlockType::LBlock,
        TBlockType::ZBlock,
        TBlockType::TBlock,
        TBlockType::SBlock,
        TBlockType::OBlock,
    ]
}

/// Relies on `rand::thread_rng` and `rand::Rng::gen_range`: on the non-empty
/// range `0..7` the call returns a uniformly chosen value within the range.
#[verifier::external_body]
fn random_index() -> (r: usize)
    ensures
        r < 7,
{
    rand::Rng::gen_range(&mut rand::thread_rng(), 0..7)
}

impl TBlockType {
    /// The shape's four relative cell offsets.
    pub fn get(&self) -> (r: [(i8, i8); 4])
        ensures
            r@ == offsets(*self),
    {
        let r = match self {
            Self::IBlock => [(0i8, 0i8), (1i8, 0i8), (2i8, 0i8), (3i8, 0i8)],
            Self::LBlock => [(0i8, 0i8), (0i8, 1i8), (0i8, 2i8), (1i8, 2i8)],
            Self::JBlock => [(1i8, 0i8), (1i8, 1i8), (1i8, 2i8), (0i8, 2i8)],
            Self::ZBlock => [(0i8, 0i8), (1i8, 0i8), (1i8, 1i8), (2i8, 1i8)],
            Self::SBlock => [(0i8, 1i8), (1i8, 1i8), (1i8, 0i8), (2i8, 0i8)],
            Self::TBlock => [(0i8, 1i8), (1i8, 1i8), (1i8, 0i8), (2i8, 1i8)],
            Self::OBlock => [(0i8, 0i8), (0i8, 1i8), (1i8, 0i8), (1i8, 1i8)],
        };
        proof {
            assert(r@ =~= offsets(*self));
        }
        r
    }

    /// All seven shapes, in catalog order.
    pub fn values() -> (r: [TBlockType; 7])
        ensures
            r@ == all_shapes(),
    {
        let r = [
            TBlockType::IBlock,
            TBlockType::JBlock,
            TBlockType::LBlock,
            TBlockType::ZBlock,
            TBlockType::TBlock,
            TBlockType::SBlock,
            TBlockType::OBlock,
        ];
        proof {
            assert(r@ =~= all_shapes());
        }
        r
    }

    /// A uniformly chosen shape.
    pub fn random() -> (r: Self)
        ensures
            all_shapes().contains(r),
    {
        let v = Self::values();
        let i = random_index();
        let r = v[i];
        proof {
            assert(all_shapes()[i as int] == r);
        }
        r
    }
}

/// All four cells lie inside the playing field.
pub open spec fn piece_wf_pos(p: Seq<(u8, u8)>) -> bool {
    &&& p.len() == 4
    &&& forall|i: int| 0 <= i < 4 ==> in_bounds((#[trigger] p[i]).0 as int, p[i].1 as int)
}

/// Every cell of `p`, shifted by (dx, dy), stays clear of walls, floor,
/// ceiling, and occupied cells.
pub open spec fn can_shift(g: Seq<Seq<TBlockColor>>, p: Seq<(u8, u8)>, dx: int, dy: int) -> bool {
    forall|i: int| 0 <= i < 4 ==> !colliding_at(g, (#[trigger] p[i]).0 + dx, p[i].1 + dy)
}

/// `q` is `p` with every cell shifted by (dx, dy).
pub open spec fn shifted(p: Seq<(u8, u8)>, q: Seq<(u8, u8)>, dx: int, dy: int) -> bool {
    &&& q.len() == 4
    &&& forall|i: int|
        0 <= i < 4 ==> (#[trigger] q[i]).0 == p[i].0 + dx && q[i].1 == p[i].1 + dy
}

/// The sum of the four x-coordinates.
pub open spec fn sum_x(p: Seq<(u8, u8)>) -> int {
    p[0].0 + p[1].0 + p[2].0 + p[3].0
}

/// The sum of the four y-coordinates.
pub open spec fn sum_y(p: Seq<(u8, u8)>) -> int {
    p[0].1 + p[1].1 + p[2].1 + p[3].1
}

/// The integer-truncated average x-coordinate of the four cells.
pub open spec fn center_x(p: Seq<(u8, u8)>) -> int {
    sum_x(p) / 4
}

/// The integer-truncated average y-coordinate of the four cells.
pub open spec fn center_y(p: Seq<(u8, u8)>) -> int {
    sum_y(p) / 4
}

/// The x-coordinate of cell `i` after a 90-degree clockwise turn about the
/// centroid.
pub open spec fn rot_cw_x(p: Seq<(u8, u8)>, i: int) -> int {
    center_x(p) + (p[i].1 - center_y(p))
}

/// The y-coordinate of cell `i` after a 90-degree clockwise turn about the
/// centroid.
pub open spec fn rot_cw_y(p: Seq<(u8, u8)>, i: int) -> int {
    center_y(p) - (p[i].0 - center_x(p))
}

/// The x-coordinate of cell `i` after a 90-degree counter-clockwise turn
/// about the centroid.
pub open spec fn rot_ccw_x(p: Seq<(u8, u8)>, i: int) -> int {
    center_x(p) - (p[i].1 - center_y(p))
}

/// The y-coordinate of cell `i` after a 90-degree counter-clockwise turn
/// about the centroid.
pub open spec fn rot_ccw_y(p: Seq<(u8, u8)>, i: int) -> int {
    center_y(p) + (p[i].0 - center_x(p))
}

/// Every clockwise-rotated cell stays clear of walls, floor, ceiling, and
/// occupied cells.
pub open spec fn can_rotate_cw(g: Seq<Seq<TBlockColor>>, p: Seq<(u8, u8)>) -> bool {
    forall|i: int| 0 <= i < 4 ==> !colliding_at(g, #[trigger] rot_cw_x(p, i), rot_cw_y(p, i))
}

/// Every counter-clockwise-rotated cell stays clear of walls, floor, ceiling,
/// and occupied cells.
pub open spec fn can_rotate_ccw(g: Seq<Seq<TBlockColor>>, p: Seq<(u8, u8)>) -> bool {
    forall|i: int| 0 <= i < 4 ==> !colliding_at(g, #[trigger] rot_ccw_x(p, i), rot_ccw_y(p, i))
}

/// `q` is `p` turned 90 degrees clockwise about `p`'s centroid.
pub open spec fn rotated_cw(p: Seq<(u8, u8)>, q: Seq<(u8, u8)>) -> bool {
    &&& q.len() == 4
    &&& forall|i: int|
        0 <= i < 4 ==> (#[trigger] q[i]).0 == rot_cw_x(p, i) && q[i].1 == rot_cw_y(p, i)
}

/// `q` is `p` turned 90 degrees counter-clockwise about `p`'s centroid.
pub open spec fn rotated_ccw(p: Seq<(u8, u8)>, q: Seq<(u8, u8)>) -> bool {
    &&& q.len() == 4
    &&& forall|i: int|
        0 <= i < 4 ==> (#[trigger] q[i]).0 == rot_ccw_x(p, i) && q[i].1 == rot_ccw_y(p, i)
}

/// The shape fits inside the field when spawned with its origin at (x, y).
pub open spec fn spawn_fits(x: int, y: int, b: TBlockType) -> bool {
    forall|i: int|
        0 <= i < 4 ==> in_bounds(x + (#[trigger] offsets(b)[i]).0, y + offsets(b)[i].1)
}

/// `blk` is shape `b` freshly spawned with its origin at (x, y): the shape's
/// color, and each offset added to the origin.
pub open spec fn spawned_at(blk: TetrisBlock, x: int, y: int, b: TBlockType) -> bool {
    &&& blk.spec_color() == color_of(b)
    &&& blk.spec_pos().len() == 4
    &&& forall|i: int|
        0 <= i < 4 ==> (#[trigger] blk.spec_pos()[i]).0 == x + offsets(b)[i].0
            && blk.spec_pos()[i].1 == y + offsets(b)[i].1
}

/// The falling piece: four absolute cell coordinates and a color.
#[derive(Debug)]
pub struct TetrisBlock {
    color: TBlockColor,
    pos: [(u8, u8); 4],
}

impl TetrisBlock {
    /// The piece's four absolute cell coordinates.
    pub closed spec fn spec_pos(&self) -> Seq<(u8, u8)> {
        self.pos@
    }

    /// The piece's color.
    pub closed spec fn spec_color(&self) -> TBlockColor {
        self.color
    }

    /// Four in-bounds cells and a non-empty color.
    pub open spec fn wf(&self) -> bool {
        piece_wf_pos(self.spec_pos()) && self.spec_color() != TBlockColor::Empty
    }

    /// Whether the cell at origin + offset lies inside the field.
    fn offset_fits(x: u8, y: u8, off: (i8, i8)) -> (r: bool)
        ensures
            r == in_bounds(x + off.0, y + off.1),
    {
        let cx: i16 = x as i16 + off.0 as i16;
        let cy: i16 = y as i16 + off.1 as i16;
        0 <= cx && cx < NUM_COLS as i16 && 0 <= cy && cy < NUM_ROWS as i16
    }

    /// Spawns shape `block` with its origin at (x, y): each of the shape's
    /// four offsets is added to the origin. Refuses to spawn — returns `None`
    /// — when any resulting cell would fall outside the field.
    pub fn new(x: u8, y: u8, block: TBlockType) -> (r: Option<TetrisBlock>)
        ensures
            r is Some <==> spawn_fits(x as int, y as int, block),
            r is Some ==> r.unwrap().wf() && spawned_at(r.unwrap(), x as int, y as int, block),
    {
        let color = match block {
            TBlockType::IBlock => TBlockColor::Blue,
            TBlockType::JBlock => TBlockColor::Green,
            TBlockType::LBlock => TBlockColor::Orange,
            TBlockType::ZBlock => TBlockColor::Red,
            TBlockType::SBlock => TBlockColor::Magenta,
            TBlockType::TBlock => TBlockColor::Cyan,
            TBlockType::OBlock => TBlockColor::Yellow,
        };
        let offs = block.get();
        let f0 = Self::offset_fits(x, y, offs[0]);
        let f1 = Self::offset_fits(x, y, offs[1]);
        let f2 = Self::offset_fits(x, y, offs[2]);
        let f3 = Self::offset_fits(x, y, offs[3]);
        if f0 && f1 && f2 && f3 {
            let pos = [
                ((x as i16 + offs[0].0 as i16) as u8, (y as i16 + offs[0].1 as i16) as u8),
                ((x as i16 + offs[1].0 as i16) as u8, (y as i16 + offs[1].1 as i16) as u8),
                ((x as i16 + offs[2].0 as i16) as u8, (y as i16 + offs[2].1 as i16) as u8),
                ((x as i16 + offs[3].0 as i16) as u8, (y as i16 + offs[3].1 as i16) as u8),
            ];
            let blk = TetrisBlock { color, pos };
            proof {
                assert(color_of(block) != TBlockColor::Empty);
                assert forall|i: int| 0 <= i < 4 implies in_bounds(
                    x + (#[trigger] offsets(block)[i]).0,
                    y + offsets(block)[i].1,
                ) by {
                    if i == 0 {
                    } else if i == 1 {
                    } else if i == 2 {
                    }
                }
            }
            Some(blk)
        } else {
            proof {
                assert(!spawn_fits(x as int, y as int, block)) by {
                    if spawn_fits(x as int, y as int, block) {
                        assert(in_bounds(x + offsets(block)[0].0, y + offsets(block)[0].1));
                        assert(in_bounds(x + offsets(block)[1].0, y + offsets(block)[1].1));
                        assert(in_bounds(x + offsets(block)[2].0, y + offsets(block)[2].1));
                        assert(in_bounds(x + offsets(block)[3].0, y + offsets(block)[3].1));
                    }
                }
            }
            None
        }
    }

    /// A read-only snapshot: the four cell coordinates and the color.
    pub fn get_pos(&self) -> (r: ([(u8, u8); 4], TBlockColor))
        ensures
            r.0@ == self.spec_pos(),
            r.1 == self.spec_color(),
    {
        (self.pos, self.color)
    }

    /// The single collision predicate gating every transform: true when the
    /// coordinate leaves the field or lands on an occupied cell.
    pub fn is_colliding(&self, grid: &Grid, new_pos: (i8, i8)) -> (r: bool)
        requires
            grid.wf(),
        ensures
            r == colliding_at(grid@, new_pos.0 as int, new_pos.1 as int),
    {
        if new_pos.1 > (NUM_ROWS - 1) as i8 || new_pos.0 > (NUM_COLS - 1) as i8 || new_pos.0 < 0
            || new_pos.1 < 0 {
            true
        } else {
            grid.occupied(new_pos.0 as usize, new_pos.1 as usize)
        }
    }

    /// Tries to move the piece one row down. Either all four cells move and
    /// `true` is returned, or — when any shifted cell would collide — no cell
    /// moves and `false` is returned.
    pub fn move_down(&mut self, grid: &Grid) -> (r: bool)
        requires
            old(self).wf(),
            grid.wf(),
        ensures
            final(self).wf(),
            r == can_shift(grid@, old(self).spec_pos(), 0, 1),
            r ==> shifted(old(self).spec_pos(), final(self).spec_pos(), 0, 1),
            r ==> final(self).spec_color() == old(self).spec_color(),
            !r ==> *final(self) == *old(self),
    {
        let p = self.pos;
        if self.is_colliding(grid, (p[0].0 as i8, p[0].1 as i8 + 1)) {
            return false;
        }
        if self.is_colliding(grid, (p[1].0 as i8, p[1].1 as i8 + 1)) {
            return false;
        }
        if self.is_colliding(grid, (p[2].0 as i8, p[2].1 as i8 + 1)) {
            return false;
        }
        if self.is_colliding(grid, (p[3].0 as i8, p[3].1 as i8 + 1)) {
            return false;
        }
        self.pos = [
            (p[0].0, p[0].1 + 1),
            (p[1].0, p[1].1 + 1),
            (p[2].0, p[2].1 + 1),
            (p[3].0, p[3].1 + 1),
        ];
        true
    }

    /// Tries to move the piece one column to the left; on any collision no
    /// cell moves.
    pub fn move_left(&mut self, grid: &Grid)
        requires
            old(self).wf(),
            grid.wf(),
        ensures
            final(self).wf(),
            can_shift(grid@, old(self).spec_pos(), -1, 0) ==> shifted(
                old(self).spec_pos(),
                final(self).spec_pos(),
                -1,
                0,
            ) && final(self).spec_color() == old(self).spec_color(),
            !can_shift(grid@, old(self).spec_pos(), -1, 0) ==> *final(self) == *old(self),
    {
        let p = self.pos;
        if self.is_colliding(grid, (p[0].0 as i8 - 1, p[0].1 as i8)) {
            return ;
        }
        if self.is_colliding(grid, (p[1].0 as i8 - 1, p[1].1 as i8)) {
            return ;
        }
        if self.is_colliding(grid, (p[2].0 as i8 - 1, p[2].1 as i8)) {
            return ;
        }
        if self.is_colliding(grid, (p[3].0 as i8 - 1, p[3].1 as i8)) {
            return ;
        }
        self.pos = [
            (p[0].0 - 1, p[0].1),
            (p[1].0 - 1, p[1].1),
            (p[2].0 - 1, p[2].1),
            (p[3].0 - 1, p[3].1),
        ];
    }

    /// Tries to move the piece one column to the right; on any collision no
    /// cell moves.
    pub fn move_right(&mut self, grid: &Grid)
        requires
            old(self).wf(),
            grid.wf(),
        ensures
            final(self).wf(),
            can_shift(grid@, old(self).spec_pos(), 1, 0) ==> shifted(
                old(self).spec_pos(),
                final(self).spec_pos(),
                1,
                0,
            ) && final(self).spec_color() == old(self).spec_color(),
            !can_shift(grid@, old(self).spec_pos(), 1, 0) ==> *final(self) == *old(self),
    {
        let p = self.pos;
        if self.is_colliding(grid, (p[0].0 as i8 + 1, p[0].1 as i8)) {
            return ;
        }
        if self.is_colliding(grid, (p[1].0 as i8 + 1, p[1].1 as i8)) {
            return ;
        }
        if self.is_colliding(grid, (p[2].0 as i8 + 1, p[2].1 as i8)) {
            return ;
        }
        if self.is_colliding(grid, (p[3].0 as i8 + 1, p[3].1 as i8)) {
            return ;
        }
        self.pos = [
            (p[0].0 + 1, p[0].1),
            (p[1].0 + 1, p[1].1),
            (p[2].0 + 1, p[2].1),
            (p[3].0 + 1, p[3].1),
        ];
    }

    /// Tries to turn the piece 90 degrees clockwise about the
    /// integer-truncated centroid of its four cells. If any rotated cell
    /// would collide, the orientation is unchanged; no wall-kick search is
    /// performed.
    #[verifier::rlimit(50)]
    pub fn rotate_clockwise(&mut self, grid: &Grid)
        requires
            old(self).wf(),
            grid.wf(),
        ensures
            final(self).wf(),
            can_rotate_cw(grid@, old(self).spec_pos()) ==> rotated_cw(
                old(self).spec_pos(),
                final(self).spec_pos(),
            ) && final(self).spec_color() == old(self).spec_color(),
            !can_rotate_cw(grid@, old(self).spec_pos()) ==> *final(self) == *old(self),
    {
        let p = self.pos;
        let sx: u8 = p[0].0 + p[1].0 + p[2].0 + p[3].0;
        let sy: u8 = p[0].1 + p[1].1 + p[2].1 + p[3].1;
        let cx: i8 = (sx / 4) as i8;
        let cy: i8 = (sy / 4) as i8;
        let q0 = (cx + (p[0].1 as i8 - cy), cy - (p[0].0 as i8 - cx));
        let q1 = (cx + (p[1].1 as i8 - cy), cy - (p[1].0 as i8 - cx));
        let q2 = (cx + (p[2].1 as i8 - cy), cy - (p[2].0 as i8 - cx));
        let q3 = (cx + (p[3].1 as i8 - cy), cy - (p[3].0 as i8 - cx));
        if self.is_colliding(grid, q0) {
            proof {
                assert(colliding_at(grid@, rot_cw_x(p@, 0), rot_cw_y(p@, 0)));
            }
            return ;
        }
        if self.is_colliding(grid, q1) {
            proof {
                assert(colliding_at(grid@, rot_cw_x(p@, 1), rot_cw_y(p@, 1)));
            }
            return ;
        }
        if self.is_colliding(grid, q2) {
            proof {
                assert(colliding_at(grid@, rot_cw_x(p@, 2), rot_cw_y(p@, 2)));
            }
            return ;
        }
        if self.is_colliding(grid, q3) {
            proof {
                assert(colliding_at(grid@, rot_cw_x(p@, 3), rot_cw_y(p@, 3)));
            }
            return ;
        }
        self.pos = [
            (q0.0 as u8, q0.1 as u8),
            (q1.0 as u8, q1.1 as u8),
            (q2.0 as u8, q2.1 as u8),
            (q3.0 as u8, q3.1 as u8),
        ];
    }

    /// Tries to turn the piece 90 degrees counter-clockwise about the
    /// integer-truncated centroid of its four cells. If any rotated cell
    /// would collide, the orientation is unchanged; no wall-kick search is
    /// performed.
    #[verifier::rlimit(50)]
    pub fn rotate_counter_clockwise(&mut self, grid: &Grid)
        requires
            old(self).wf(),
            grid.wf(),
        ensures
            final(self).wf(),
            can_rotate_ccw(grid@, old(self).spec_pos()) ==> rotated_ccw(
                old(self).spec_pos(),
                final(self).spec_pos(),
            ) && final(self).spec_color() == old(self).spec_color(),
            !can_rotate_ccw(grid@, old(self).spec_pos()) ==> *final(self) == *old(self),
    {
        let p = self.pos;
        let sx: u8 = p[0].0 + p[1].0 + p[2].0 + p[3].0;
        let sy: u8 = p[0].1 + p[1].1 + p[2].1 + p[3].1;
        let cx: i8 = (sx / 4) as i8;
        let cy: i8 = (sy / 4) as i8;
        let q0 = (cx - (p[0].1 as i8 - cy), cy + (p[0].0 as i8 - cx));
        let q1 = (cx - (p[1].1 as i8 - cy), cy + (p[1].0 as i8 - cx));
        let q2 = (cx - (p[2].1 as i8 - cy), cy + (p[2].0 as i8 - cx));
        let q3 = (cx - (p[3].1 as i8 - cy), cy + (p[3].0 as i8 - cx));
        if self.is_colliding(grid, q0) {
            proof {
                assert(colliding_at(grid@, rot_ccw_x(p@, 0), rot_ccw_y(p@, 0)));
            }
            return ;
        }
        if self.is_colliding(grid, q1) {
            proof {
                assert(colliding_at(grid@, rot_ccw_x(p@, 1), rot_ccw_y(p@, 1)));
            }
            return ;
        }
        if self.is_colliding(grid, q2) {
            proof {
                assert(colliding_at(grid@, rot_ccw_x(p@, 2), rot_ccw_y(p@, 2)));
            }
            return ;
        }
        if self.is_colliding(grid, q3) {
            proof {
                assert(colliding_at(grid@, rot_ccw_x(p@, 3), rot_ccw_y(p@, 3)));
            }
            return ;
        }
        self.pos = [
            (q0.0 as u8, q0.1 as u8),
            (q1.0 as u8, q1.1 as u8),
            (q2.0 as u8, q2.1 as u8),
            (q3.0 as u8, q3.1 as u8),
        ];
    }
}

/// A piece with a cell in the leftmost column can never move left: the
/// shifted cell would leave the field, whatever the grid holds.
pub proof fn lemma_left_wall_blocks(g: Seq<Seq<TBlockColor>>, p: Seq<(u8, u8)>, i: int)
    requires
        0 <= i < 4,
        p[i].0 == 0,
    ensures
        !can_shift(g, p, -1, 0),
{
    assert(colliding_at(g, p[i].0 - 1, p[i].1 as int));
}

/// A piece with a cell in the rightmost column can never move right.
pub proof fn lemma_right_wall_blocks(g: Seq<Seq<TBlockColor>>, p: Seq<(u8, u8)>, i: int)
    requires
        0 <= i < 4,
        p[i].0 == NUM_COLS - 1,
    ensures
        !can_shift(g, p, 1, 0),
{
    assert(colliding_at(g, p[i].0 + 1, p[i].1 as int));
}

/// A piece with a cell in the bottom row can never move down.
pub proof fn lemma_floor_blocks(g: Seq<Seq<TBlockColor>>, p: Seq<(u8, u8)>, i: int)
    requires
        0 <= i < 4,
        p[i].1 == NUM_ROWS - 1,
    ensures
        !can_shift(g, p, 0, 1),
{
    assert(colliding_at(g, p[i].0 as int, p[i].1 + 1));
}

/// A clockwise turn keeps the centroid when the x-coordinates of the four
/// cells sum to a multiple of four; the centroid of the turned piece is then
/// the centroid it was turned about.
proof fn lemma_centroid_after_cw(p: Seq<(u8, u8)>, q: Seq<(u8, u8)>)
    requires
        p.len() == 4,
        sum_x(p) % 4 == 0,
        rotated_cw(p, q),
    ensures
        center_x(q) == center_x(p),
        center_y(q) == center_y(p),
{
    let cx = center_x(p);
    let cy = center_y(p);
    vstd::arithmetic::div_mod::lemma_fundamental_div_mod(sum_x(p), 4);
    vstd::arithmetic::div_mod::lemma_fundamental_div_mod(sum_y(p), 4);
    let r = sum_y(p) % 4;
    assert(sum_x(q) == 4 * cx + r);
    assert(sum_y(q) == 4 * cy);
    vstd::arithmetic::div_mod::lemma_fundamental_div_mod_converse(4 * cx + r, 4, cx, r);
    vstd::arithmetic::div_mod::lemma_fundamental_div_mod_converse(4 * cy, 4, cy, 0);
}

/// A counter-clockwise turn keeps the centroid when the y-coordinates of the
/// four cells sum to a multiple of four.
proof fn lemma_centroid_after_ccw(p: Seq<(u8, u8)>, q: Seq<(u8, u8)>)
    requires
        p.len() == 4,
        sum_y(p) % 4 == 0,
        rotated_ccw(p, q),
    ensures
        center_x(q) == center_x(p),
        center_y(q) == center_y(p),
{
    let cx = center_x(p);
    let cy = center_y(p);
    vstd::arithmetic::div_mod::lemma_fundamental_div_mod(sum_x(p), 4);
    vstd::arithmetic::div_mod::lemma_fundamental_div_mod(sum_y(p), 4);
    let r = sum_x(p) % 4;
    assert(sum_x(q) == 4 * cx);
    assert(sum_y(q) == 4 * cy + r);
    vstd::arithmetic::div_mod::lemma_fundamental_div_mod_converse(4 * cx, 4, cx, 0);
    vstd::arithmetic::div_mod::lemma_fundamental_div_mod_converse(4 * cy + r, 4, cy, r);
}

/// Rotation reversibility: turning a piece clockwise and then turning the
/// result counter-clockwise computes the original four cells, provided the
/// x-coordinates of the cells sum to a multiple of four. (An O-shaped piece,
/// whose x-coordinates always sum to 2 modulo 4, comes back shifted by one
/// cell instead: the truncated centroid moves under the first turn.)
pub proof fn lemma_rotate_cw_then_ccw(p: Seq<(u8, u8)>, q: Seq<(u8, u8)>)
    requires
        p.len() == 4,
        sum_x(p) % 4 == 0,
        rotated_cw(p, q),
    ensures
        forall|i: int|
            0 <= i < 4 ==> #[trigger] rot_ccw_x(q, i) == p[i].0 && rot_ccw_y(q, i) == p[i].1,
{
    lemma_centroid_after_cw(p, q);
}

/// Rotation reversibility the other way round: a counter-clockwise turn
/// followed by a clockwise turn computes the original four cells, provided
/// the y-coordinates of the cells sum to a multiple of four.
pub proof fn lemma_rotate_ccw_then_cw(p: Seq<(u8, u8)>, q: Seq<(u8, u8)>)
    requires
        p.len() == 4,
        sum_y(p) % 4 == 0,
        rotated_ccw(p, q),
    ensures
        forall|i: int|
            0 <= i < 4 ==> #[trigger] rot_cw_x(q, i) == p[i].0 && rot_cw_y(q, i) == p[i].1,
{
    lemma_centroid_after_ccw(p, q);
}

/// On the empty grid, a committed clockwise turn can always be undone: the
/// counter-clockwise turn of the result is itself free of collisions and
/// restores the original four cells, provided the x-coordinates of the cells
/// sum to a multiple of four.
pub proof fn lemma_rotate_roundtrip_empty(p: Seq<(u8, u8)>, q: Seq<(u8, u8)>)
    requires
        piece_wf_pos(p),
        sum_x(p) % 4 == 0,
        rotated_cw(p, q),
    ensures
        can_rotate_ccw(empty_grid(), q),
        forall|i: int|
            0 <= i < 4 ==> #[trigger] rot_ccw_x(q, i) == p[i].0 && rot_ccw_y(q, i) == p[i].1,
{
    lemma_rotate_cw_then_ccw(p, q);
    assert forall|i: int| 0 <= i < 4 implies !colliding_at(
        empty_grid(),
        #[trigger] rot_ccw_x(q, i),
        rot_ccw_y(q, i),
    ) by {
        assert(rot_ccw_x(q, i) == p[i].0 && rot_ccw_y(q, i) == p[i].1);
        assert(in_bounds(p[i].0 as int, p[i].1 as int));
        assert(empty_grid()[p[i].1 as int][p[i].0 as int] == TBlockColor::Empty);
    }
}

/// The collision predicate is the sole gate for translations: a committed
/// shift leaves no cell on a coordinate the predicate rejects.
pub proof fn lemma_shift_commits_collision_free(
    g: Seq<Seq<TBlockColor>>,
    p: Seq<(u8, u8)>,
    q: Seq<(u8, u8)>,
    dx: int,
    dy: int,
)
    requires
        can_shift(g, p, dx, dy),
        shifted(p, q, dx, dy),
    ensures
        forall|i: int| 0 <= i < 4 ==> !colliding_at(g, (#[trigger] q[i]).0 as int, q[i].1 as int),
{
    assert forall|i: int| 0 <= i < 4 implies !colliding_at(
        g,
        (#[trigger] q[i]).0 as int,
        q[i].1 as int,
    ) by {
        assert(!colliding_at(g, p[i].0 + dx, p[i].1 + dy));
    }
}

/// The collision predicate is the sole gate for clockwise turns as well.
pub proof fn lemma_rotate_cw_commits_collision_free(
    g: Seq<Seq<TBlockColor>>,
    p: Seq<(u8, u8)>,
    q: Seq<(u8, u8)>,
)
    requires
        can_rotate_cw(g, p),
        rotated_cw(p, q),
    ensures
        forall|i: int| 0 <= i < 4 ==> !colliding_at(g, (#[trigger] q[i]).0 as int, q[i].1 as int),
{
    assert forall|i: int| 0 <= i < 4 implies !colliding_at(
        g,
        (#[trigger] q[i]).0 as int,
        q[i].1 as int,
    ) by {
        assert(!colliding_at(g, rot_cw_x(p, i), rot_cw_y(p, i)));
    }
}

/// The collision predicate is the sole gate for counter-clockwise turns too.
pub proof fn lemma_rotate_ccw_commits_collision_free(
    g: Seq<Seq<TBlockColor>>,
    p: Seq<(u8, u8)>,
    q: Seq<(u8, u8)>,
)
    requires
        can_rotate_ccw(g, p),
        rotated_ccw(p, q),
    ensures
        forall|i: int| 0 <= i < 4 ==> !colliding_at(g, (#[trigger] q[i]).0 as int, q[i].1 as int),
{
    assert forall|i: int| 0 <= i < 4 implies !colliding_at(
        g,
        (#[trigger] q[i]).0 as int,
        q[i].1 as int,
    ) by {
        assert(!colliding_at(g, rot_ccw_x(p, i), rot_ccw_y(p, i)));
    }
}

} // verus!
