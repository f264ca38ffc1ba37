//! The engine: the game state and the tick-driven lock/clear/score cycle.
//!
//! `App` owns the grid, the falling piece, and the score. One call to
//! `update` is one tick: the piece either falls one row or — when blocked —
//! locks into the grid, full rows are cleared and scored, and a fresh random
//! piece spawns at the top. Player commands translate or rotate the piece
//! between ticks, and never themselves trigger locking: a manual soft drop
//! that fails simply leaves the piece in place for the next tick to lock.
use vstd::prelude::*;

use crate::grid::compacted;
use crate::grid::empty_grid;
use crate::grid::full_count;
use crate::grid::grid_wf;
use crate::grid::in_bounds;
use crate::grid::occupied_at;
use crate::grid::place;
use crate::grid::Grid;
use crate::tetris::can_rotate_ccw;
use crate::tetris::can_rotate_cw;
use crate::tetris::can_shift;
use crate::tetris::offsets;
use crate::tetris::rotated_ccw;
use crate::tetris::rotated_cw;
use crate::tetris::shifted;
use crate::tetris::spawn_fits;
use crate::tetris::spawned_at;
use crate::tetris::TBlockColor;
use crate::tetris::TBlockType;
use crate::tetris::TetrisBlock;
use crate::NUM_COLS;
use crate::NUM_ROWS;

verus! {

/// The column of the origin at which pieces respawn after a lock.
pub const RESPAWN_X: u8 = 4;

/// The column of the origin of the very first piece.
pub const START_X: u8 = 1;

/// A discrete player command; anything else at the input boundary is a no-op
/// and never reaches the engine.
pub enum Command {
    MoveLeft,
    MoveRight,
    SoftDrop,
    RotateCW,
    RotateCCW,
    Exit,
}

/// The points awarded for clearing `n` rows in one locking cycle.
pub open spec fn reward(n: int) -> int {
    if n == 1 {
        100
    } else if n == 2 {
        300
    } else if n == 3 {
        500
    } else if n == 4 {
        800
    } else {
        0
    }
}

/// The score after adding `p` points, saturating at the counter's limit.
pub open spec fn add_points(s: u128, p: int) -> u128 {
    if s + p <= u128::MAX {
        (s + p) as u128
    } else {
        u128::MAX
    }
}

/// The grid after the four cells of a locking piece are written with its
/// color.
pub open spec fn locked_grid(g: Seq<Seq<TBlockColor>>, p: Seq<(u8, u8)>, c: TBlockColor) -> Seq<
    Seq<TBlockColor>,
> {
    place(
        place(
            place(place(g, p[0].0 as int, p[0].1 as int, c), p[1].0 as int, p[1].1 as int, c),
            p[2].0 as int,
            p[2].1 as int,
            c,
        ),
        p[3].0 as int,
        p[3].1 as int,
        c,
    )
}

/// Some cell of `p` sits on an already occupied grid cell.
pub open spec fn overlaps(g: Seq<Seq<TBlockColor>>, p: Seq<(u8, u8)>) -> bool {
    exists|i: int| 0 <= i < 4 && occupied_at(g, (#[trigger] p[i]).0 as int, p[i].1 as int)
}

/// Cell `(x, y)` of `p` is one of the piece's four cells.
pub open spec fn covers(p: Seq<(u8, u8)>, x: int, y: int) -> bool {
    exists|i: int| 0 <= i < 4 && (#[trigger] p[i]).0 == x && p[i].1 == y
}

/// What a render frame shows at (x, y): the grid cell where it is occupied,
/// else the falling piece's color where one of its cells sits there, else
/// empty.
pub open spec fn display_cell(
    g: Seq<Seq<TBlockColor>>,
    p: Seq<(u8, u8)>,
    c: TBlockColor,
    x: int,
    y: int,
) -> TBlockColor {
    if occupied_at(g, x, y) {
        g[y][x]
    } else if covers(p, x, y) {
        c
    } else {
        TBlockColor::Empty
    }
}

/// Every offset of every shape stays within 0..=3 horizontally and 0..=2
/// vertically.
proof fn lemma_offset_range(b: TBlockType, i: int)
    requires
        0 <= i < 4,
    ensures
        0 <= offsets(b)[i].0 <= 3,
        0 <= offsets(b)[i].1 <= 2,
{
    match b {
        TBlockType::IBlock => assert(0 <= offsets(b)[i].0 <= 3 && 0 <= offsets(b)[i].1 <= 2),
        TBlockType::JBlock => assert(0 <= offsets(b)[i].0 <= 3 && 0 <= offsets(b)[i].1 <= 2),
        TBlockType::LBlock => assert(0 <= offsets(b)[i].0 <= 3 && 0 <= offsets(b)[i].1 <= 2),
        TBlockType::ZBlock => assert(0 <= offsets(b)[i].0 <= 3 && 0 <= offsets(b)[i].1 <= 2),
        TBlockType::SBlock => assert(0 <= offsets(b)[i].0 <= 3 && 0 <= offsets(b)[i].1 <= 2),
        TBlockType::TBlock => assert(0 <= offsets(b)[i].0 <= 3 && 0 <= offsets(b)[i].1 <= 2),
        TBlockType::OBlock => assert(0 <= offsets(b)[i].0 <= 3 && 0 <= offsets(b)[i].1 <= 2),
    }
}

/// Every shape fits when its origin leaves three columns and two rows of room.
pub proof fn lemma_spawn_fits(x: int, y: int, b: TBlockType)
    requires
        0 <= x,
        0 <= y,
        x + 3 < NUM_COLS,
        y + 2 < NUM_ROWS,
    ensures
        spawn_fits(x, y, b),
{
    assert forall|i: int| 0 <= i < 4 implies in_bounds(
        x + (#[trigger] offsets(b)[i]).0,
        y + offsets(b)[i].1,
    ) by {
        lemma_offset_range(b, i);
    }
}

/// The game state: grid, falling piece, score, and the two terminal flags.
pub struct App {
    exit: bool,
    game_over: bool,
    grid: Grid,
    tetris_block: TetrisBlock,
    score: u128,
}

impl App {
    /// The grid's cells.
    pub closed spec fn spec_grid(&self) -> Seq<Seq<TBlockColor>> {
        self.grid@
    }

    /// The falling piece.
    pub closed spec fn spec_block(&self) -> TetrisBlock {
        self.tetris_block
    }

    /// The score counter.
    pub closed spec fn spec_score(&self) -> u128 {
        self.score
    }

    /// Whether an exit command has been received.
    pub closed spec fn spec_exit(&self) -> bool {
        self.exit
    }

    /// Whether a freshly spawned piece overlapped the grid: the terminal
    /// game-over state.
    pub closed spec fn spec_game_over(&self) -> bool {
        self.game_over
    }

    /// A well-formed grid and a well-formed piece.
    pub open spec fn wf(&self) -> bool {
        grid_wf(self.spec_grid()) && self.spec_block().wf()
    }
}

/// Everything except the falling piece is unchanged.
pub open spec fn same_but_block(pre: App, post: App) -> bool {
    &&& post.spec_grid() == pre.spec_grid()
    &&& post.spec_score() == pre.spec_score()
    &&& post.spec_exit() == pre.spec_exit()
    &&& post.spec_game_over() == pre.spec_game_over()
}

/// An attempted translation by (dx, dy): committed in full when every shifted
/// cell is collision-free, otherwise the piece is untouched.
pub open spec fn translate_rel(
    g: Seq<Seq<TBlockColor>>,
    pre: TetrisBlock,
    post: TetrisBlock,
    dx: int,
    dy: int,
) -> bool {
    if can_shift(g, pre.spec_pos(), dx, dy) {
        shifted(pre.spec_pos(), post.spec_pos(), dx, dy) && post.spec_color() == pre.spec_color()
    } else {
        post == pre
    }
}

/// An attempted clockwise turn: committed in full when every rotated cell is
/// collision-free, otherwise the piece is untouched.
pub open spec fn rotate_cw_rel(g: Seq<Seq<TBlockColor>>, pre: TetrisBlock, post: TetrisBlock) -> bool {
    if can_rotate_cw(g, pre.spec_pos()) {
        rotated_cw(pre.spec_pos(), post.spec_pos()) && post.spec_color() == pre.spec_color()
    } else {
        post == pre
    }
}

/// An attempted counter-clockwise turn: committed in full when every rotated
/// cell is collision-free, otherwise the piece is untouched.
pub open spec fn rotate_ccw_rel(g: Seq<Seq<TBlockColor>>, pre: TetrisBlock, post: TetrisBlock) -> bool {
    if can_rotate_ccw(g, pre.spec_pos()) {
        rotated_ccw(pre.spec_pos(), post.spec_pos()) && post.spec_color() == pre.spec_color()
    } else {
        post == pre
    }
}

/// One tick with next shape `b`. In the terminal game-over state nothing
/// changes. While the piece can fall it falls one row and nothing else
/// changes. Otherwise the piece locks into the grid, the full rows of the
/// locked grid are removed and scored by the reward table, shape `b` spawns
/// at the respawn origin, and the game ends exactly when the fresh piece
/// overlaps the cleared grid.
pub open spec fn tick_rel(pre: App, post: App, b: TBlockType) -> bool {
    if pre.spec_game_over() {
        post == pre
    } else if can_shift(pre.spec_grid(), pre.spec_block().spec_pos(), 0, 1) {
        &&& same_but_block(pre, post)
        &&& shifted(pre.spec_block().spec_pos(), post.spec_block().spec_pos(), 0, 1)
        &&& post.spec_block().spec_color() == pre.spec_block().spec_color()
    } else {
        let locked = locked_grid(
            pre.spec_grid(),
            pre.spec_block().spec_pos(),
            pre.spec_block().spec_color(),
        );
        &&& post.spec_grid() == compacted(locked)
        &&& post.spec_score() == add_points(pre.spec_score(), reward(full_count(locked)))
        &&& post.spec_exit() == pre.spec_exit()
        &&& spawned_at(post.spec_block(), RESPAWN_X as int, 0, b)
        &&& post.spec_game_over() == overlaps(post.spec_grid(), post.spec_block().spec_pos())
    }
}

/// The reaction to one player command: the matching attempted transform, or,
/// for the exit command, the exit flag and nothing else.
pub open spec fn command_rel(pre: App, post: App, cmd: Command) -> bool {
    match cmd {
        Command::MoveLeft => same_but_block(pre, post) && translate_rel(
            pre.spec_grid(),
            pre.spec_block(),
            post.spec_block(),
            -1,
            0,
        ),
        Command::MoveRight => same_but_block(pre, post) && translate_rel(
            pre.spec_grid(),
            pre.spec_block(),
            post.spec_block(),
            1,
            0,
        ),
        Command::SoftDrop => same_but_block(pre, post) && translate_rel(
            pre.spec_grid(),
            pre.spec_block(),
            post.spec_block(),
            0,
            1,
        ),
        Command::RotateCW => same_but_block(pre, post) && rotate_cw_rel(
            pre.spec_grid(),
            pre.spec_block(),
            post.spec_block(),
        ),
        Command::RotateCCW => same_but_block(pre, post) && rotate_ccw_rel(
            pre.spec_grid(),
            pre.spec_block(),
            post.spec_block(),
        ),
        Command::Exit => {
            &&& post.spec_exit()
            &&& post.spec_grid() == pre.spec_grid()
            &&& post.spec_score() == pre.spec_score()
            &&& post.spec_game_over() == pre.spec_game_over()
            &&& post.spec_block() == pre.spec_block()
        },
    }
}

impl App {
    /// A fresh game: an empty grid, score zero, and shape `shape` spawned at
    /// the starting origin.
    pub fn new(shape: TBlockType) -> (r: App)
        ensures
            r.wf(),
            r.spec_grid() == empty_grid(),
            r.spec_score() == 0,
            !r.spec_exit(),
            !r.spec_game_over(),
            spawned_at(r.spec_block(), START_X as int, 0, shape),
    {
        let grid = Grid::new();
        proof {
            lemma_spawn_fits(START_X as int, 0, shape);
        }
        let tetris_block = match TetrisBlock::new(START_X, 0, shape) {
            Some(b) => b,
            None => vstd::pervasive::unreached(),
        };
        App { exit: false, game_over: false, grid, tetris_block, score: 0 }
    }

    /// A game built from a prepared position.
    pub fn from_parts(grid: Grid, tetris_block: TetrisBlock, score: u128) -> (r: App)
        requires
            grid.wf(),
            tetris_block.wf(),
        ensures
            r.wf(),
            r.spec_grid() == grid@,
            r.spec_block() == tetris_block,
            r.spec_score() == score,
            !r.spec_exit(),
            !r.spec_game_over(),
    {
        App { exit: false, game_over: false, grid, tetris_block, score }
    }

    /// The current score.
    pub fn score(&self) -> (r: u128)
        ensures
            r == self.spec_score(),
    {
        self.score
    }

    /// Whether an exit command has been received.
    pub fn exited(&self) -> (r: bool)
        ensures
            r == self.spec_exit(),
    {
        self.exit
    }

    /// Whether a freshly spawned piece overlapped the grid.
    pub fn is_game_over(&self) -> (r: bool)
        ensures
            r == self.spec_game_over(),
    {
        self.game_over
    }

    /// A read-only view of the grid.
    pub fn grid(&self) -> (r: &Grid)
        ensures
            r@ == self.spec_grid(),
    {
        &self.grid
    }

    /// A read-only view of the falling piece.
    pub fn block(&self) -> (r: &TetrisBlock)
        ensures
            *r == self.spec_block(),
    {
        &self.tetris_block
    }

    /// Records the exit command; the run loop stops at the next turn.
    pub fn exit(&mut self)
        ensures
            final(self).spec_exit(),
            final(self).spec_grid() == old(self).spec_grid(),
            final(self).spec_score() == old(self).spec_score(),
            final(self).spec_game_over() == old(self).spec_game_over(),
            final(self).spec_block() == old(self).spec_block(),
    {
        self.exit = true;
    }

    /// Whether some cell of `b` sits on an occupied grid cell.
    fn spawn_blocked(grid: &Grid, b: &TetrisBlock) -> (r: bool)
        requires
            grid.wf(),
            b.wf(),
        ensures
            r == overlaps(grid@, b.spec_pos()),
    {
        let (p, _c) = b.get_pos();
        let r = grid.occupied(p[0].0 as usize, p[0].1 as usize) || grid.occupied(
            p[1].0 as usize,
            p[1].1 as usize,
        ) || grid.occupied(p[2].0 as usize, p[2].1 as usize) || grid.occupied(
            p[3].0 as usize,
            p[3].1 as usize,
        );
        proof {
            if r {
                assert(overlaps(grid@, b.spec_pos()));
            } else {
                assert(!occupied_at(grid@, b.spec_pos()[0].0 as int, b.spec_pos()[0].1 as int));
                assert(!occupied_at(grid@, b.spec_pos()[1].0 as int, b.spec_pos()[1].1 as int));
                assert(!occupied_at(grid@, b.spec_pos()[2].0 as int, b.spec_pos()[2].1 as int));
                assert(!occupied_at(grid@, b.spec_pos()[3].0 as int, b.spec_pos()[3].1 as int));
            }
        }
        r
    }

    /// Removes the full rows, compacts the grid, and adds the reward for the
    /// number of rows removed to the score, saturating at the counter's
    /// limit.
    pub fn clear_line(&mut self)
        requires
            old(self).wf(),
        ensures
            final(self).wf(),
            final(self).spec_grid() == compacted(old(self).spec_grid()),
            final(self).spec_score() == add_points(
                old(self).spec_score(),
                reward(full_count(old(self).spec_grid())),
            ),
            final(self).spec_block() == old(self).spec_block(),
            final(self).spec_exit() == old(self).spec_exit(),
            final(self).spec_game_over() == old(self).spec_game_over(),
    {
        let lines_cleared = self.grid.clear_and_compact();
        let pts: u128 = match lines_cleared {
            1 => 100,
            2 => 300,
            3 => 500,
            4 => 800,
            _ => 0,
        };
        if self.score <= u128::MAX - pts {
            self.score = self.score + pts;
        } else {
            self.score = u128::MAX;
        }
    }

    /// One tick with `shape` as the next piece: the piece falls one row, or
    /// locks, clears, scores, and respawns as `tick_rel` states.
    pub fn step(&mut self, shape: TBlockType)
        requires
            old(self).wf(),
        ensures
            final(self).wf(),
            tick_rel(*old(self), *final(self), shape),
    {
        if self.game_over {
            return ;
        }
        if self.tetris_block.move_down(&self.grid) {
            return ;
        }
        let (p, color) = self.tetris_block.get_pos();
        self.grid.set(p[0].0 as usize, p[0].1 as usize, color);
        self.grid.set(p[1].0 as usize, p[1].1 as usize, color);
        self.grid.set(p[2].0 as usize, p[2].1 as usize, color);
        self.grid.set(p[3].0 as usize, p[3].1 as usize, color);
        self.clear_line();
        proof {
            lemma_spawn_fits(RESPAWN_X as int, 0, shape);
        }
        let fresh = match TetrisBlock::new(RESPAWN_X, 0, shape) {
            Some(b) => b,
            None => vstd::pervasive::unreached(),
        };
        self.game_over = Self::spawn_blocked(&self.grid, &fresh);
        self.tetris_block = fresh;
    }

    /// One tick with a uniformly chosen next piece.
    pub fn update(&mut self)
        requires
            old(self).wf(),
        ensures
            final(self).wf(),
            exists|b: TBlockType| tick_rel(*old(self), *final(self), b),
    {
        let ghost pre = *self;
        let b = TBlockType::random();
        self.step(b);
        proof {
            assert(tick_rel(pre, *self, b));
        }
    }

    /// Applies one player command immediately and synchronously; a command
    /// never triggers locking.
    pub fn apply_command(&mut self, cmd: Command)
        requires
            old(self).wf(),
        ensures
            final(self).wf(),
            command_rel(*old(self), *final(self), cmd),
    {
        match cmd {
            Command::MoveLeft => self.tetris_block.move_left(&self.grid),
            Command::MoveRight => self.tetris_block.move_right(&self.grid),
            Command::SoftDrop => {
                let _moved = self.tetris_block.move_down(&self.grid);
            },
            Command::RotateCW => self.tetris_block.rotate_clockwise(&self.grid),
            Command::RotateCCW => self.tetris_block.rotate_counter_clockwise(&self.grid),
            Command::Exit => self.exit(),
        }
    }

    /// The matrix a render frame shows: the grid with the falling piece's
    /// cells drawn in, occupied grid cells taking precedence.
    pub fn render_cells(&self) -> (r: Vec<Vec<TBlockColor>>)
        requires
            self.wf(),
        ensures
            r@.len() == NUM_ROWS,
            forall|y: int| 0 <= y < NUM_ROWS ==> (#[trigger] r@[y])@.len() == NUM_COLS,
            forall|x: int, y: int|
                in_bounds(x, y) ==> #[trigger] r@[y]@[x] == display_cell(
                    self.spec_grid(),
                    self.spec_block().spec_pos(),
                    self.spec_block().spec_color(),
                    x,
                    y,
                ),
    {
        let mut rows: Vec<Vec<TBlockColor>> = Vec::new();
        let mut y: usize = 0;
        while y < NUM_ROWS
            invariant
                self.wf(),
                y <= NUM_ROWS,
                rows@.len() == y,
                forall|j: int| 0 <= j < y ==> (#[trigger] rows@[j])@.len() == NUM_COLS,
                forall|x: int, j: int|
                    0 <= x < NUM_COLS && 0 <= j < y ==> #[trigger] rows@[j]@[x] == display_cell(
                        self.spec_grid(),
                        self.spec_block().spec_pos(),
                        self.spec_block().spec_color(),
                        x,
                        j,
                    ),
            decreases NUM_ROWS - y,
        {
            let mut row: Vec<TBlockColor> = Vec::new();
            let mut x: usize = 0;
            while x < NUM_COLS
                invariant
                    self.wf(),
                    y < NUM_ROWS,
                    x <= NUM_COLS,
                    row@.len() == x,
                    forall|i: int|
                        0 <= i < x ==> #[trigger] row@[i] == display_cell(
                            self.spec_grid(),
                            self.spec_block().spec_pos(),
                            self.spec_block().spec_color(),
                            i,
                            y as int,
                        ),
                decreases NUM_COLS - x,
            {
                let g = self.grid.cell(x, y);
                let c = match g {
                    TBlockColor::Empty => {
                        if self.block_covers(x, y) {
                            let (_p, pc) = self.tetris_block.get_pos();
                            pc
                        } else {
                            TBlockColor::Empty
                        }
                    },
                    _ => g,
                };
                row.push(c);
                x = x + 1;
            }
            rows.push(row);
            y = y + 1;
        }
        rows
    }

    /// Whether the falling piece has a cell at (x, y).
    fn block_covers(&self, x: usize, y: usize) -> (r: bool)
        ensures
            r == covers(self.spec_block().spec_pos(), x as int, y as int),
    {
        let (p, _c) = self.tetris_block.get_pos();
        let r = (p[0].0 as usize == x && p[0].1 as usize == y) || (p[1].0 as usize == x && p[1].1
            as usize == y) || (p[2].0 as usize == x && p[2].1 as usize == y) || (p[3].0 as usize
            == x && p[3].1 as usize == y);
        proof {
            let sp = self.spec_block().spec_pos();
            if r {
                assert(covers(sp, x as int, y as int));
            } else {
                assert(!(sp[0].0 == x && sp[0].1 == y));
                assert(!(sp[1].0 == x && sp[1].1 == y));
                assert(!(sp[2].0 == x && sp[2].1 == y));
                assert(!(sp[3].0 == x && sp[3].1 == y));
            }
        }
        r
    }
}

impl Default for App {
    /// A fresh game with a uniformly chosen first shape.
    fn default() -> (r: App)
        ensures
            r.wf(),
            r.spec_grid() == empty_grid(),
            r.spec_score() == 0,
            !r.spec_exit(),
            !r.spec_game_over(),
            exists|b: TBlockType| spawned_at(r.spec_block(), START_X as int, 0, b),
    {
        let b = TBlockType::random();
        let r = App::new(b);
        proof {
            assert(spawned_at(r.spec_block(), START_X as int, 0, b));
        }
        r
    }
}

} // verus!
