//! The session orchestrator: one grid and one active piece, driven by the
//! tick and the four input operations. A blocked move or rotation is
//! silently rejected; a blocked fall locks the piece, clears every full row
//! the piece's bounding box spans, and spawns a fresh piece from the host's
//! two random draws.

use vstd::prelude::*;

use crate::cell::{Cell, CellMatrix, Point};
use crate::rotation::{lemma_rotated_has_solid, next_rot, prev_rot, rotated_spec};
use crate::tetromino::{base_shape, FallingTetromino, TetrominoState, SPAWN_X, SPAWN_Y};
use crate::universe::{
    can_place_spec, cell_of, in_bounds_spec, lemma_can_place_interior, render_spec, stamp_spec,
    walls_floor_solid, Universe,
};

verus! {

/// Every solid cell of the piece's materialized matrix lies on an interior
/// column and above the floor row. Every reachable piece satisfies this: a
/// fresh spawn does by construction, and a move, rotation or fall is only
/// committed where the target cells were empty, hence interior.
pub open spec fn piece_in_interior(p: FallingTetromino) -> bool {
    forall|t: int|
        0 <= t < 16 && p.matrix()[t] == Cell::Solid ==> 1 <= p.position.x + t % 4 <= 10 && 0
            <= p.position.y + t / 4 <= 21
}

/// Row `li` of the grid holds only solid cells.
pub open spec fn full_line_spec(cells: Seq<Cell>, li: int) -> bool {
    forall|x: int| 0 <= x < 12 ==> cell_of(cells, x, li) == Cell::Solid
}

/// The grid after clearing row `li`: every row from 1 through `li` takes
/// the content the row above it held, and row 0 keeps its own content —
/// the topmost row is never reset.
pub open spec fn clear_line_spec(cells: Seq<Cell>, li: int) -> Seq<Cell> {
    Seq::new(
        cells.len(),
        |k: int|
            {
                let r = k / 12;
                if 1 <= r <= li {
                    cells[k - 12]
                } else {
                    cells[k]
                }
            },
    )
}

/// The grid after the lock scan has processed rows `start` up to `i`,
/// in order: each row found full when reached is cleared before the scan
/// moves on.
pub open spec fn clear_upto(cells: Seq<Cell>, start: int, i: int) -> Seq<Cell>
    decreases i - start,
{
    if i <= start {
        cells
    } else {
        let prev = clear_upto(cells, start, i - 1);
        if full_line_spec(prev, i - 1) {
            clear_line_spec(prev, i - 1)
        } else {
            prev
        }
    }
}

/// Clearing a row above the floor copies only rows whose walls are solid,
/// and never touches the floor row, so walls and floor stay solid.
pub proof fn lemma_clear_line_walls(cells: Seq<Cell>, li: int)
    requires
        cells.len() == 276,
        walls_floor_solid(cells),
        0 <= li < 22,
    ensures
        walls_floor_solid(clear_line_spec(cells, li)),
{
    let cleared = clear_line_spec(cells, li);
    assert forall|y: int| 0 <= y < 23 implies cell_of(cleared, 0, y) == Cell::Solid && cell_of(
        cleared,
        11,
        y,
    ) == Cell::Solid by {
        assert((y * 12) / 12 == y && (y * 12 + 11) / 12 == y);
        if 1 <= y <= li {
            assert(cell_of(cells, 0, y - 1) == Cell::Solid);
            assert(cell_of(cells, 11, y - 1) == Cell::Solid);
        } else {
            assert(cell_of(cells, 0, y) == Cell::Solid);
            assert(cell_of(cells, 11, y) == Cell::Solid);
        }
    }
    assert forall|x: int| 0 <= x < 12 implies cell_of(cleared, x, 22) == Cell::Solid by {
        assert((22 * 12 + x) / 12 == 22);
        assert(cell_of(cells, x, 22) == Cell::Solid);
    }
}

/// A well-formed piece with all solid cells interior keeps every solid
/// cell inside the grid, and its anchor well away from the far corner.
pub proof fn lemma_piece_in_bounds(p: FallingTetromino)
    requires
        p.wf(),
        piece_in_interior(p),
    ensures
        in_bounds_spec(p.matrix(), p.position.x as int, p.position.y as int),
        p.position.x <= 10,
        p.position.y <= 21,
{
    assert(0 <= p.tetromino.rot() < 4);
    lemma_rotated_has_solid(p.tetromino.data@, p.tetromino.rot());
    let t = choose|t: int| 0 <= t < 16 && p.matrix()[t] == Cell::Solid;
    assert(1 <= p.position.x + t % 4 <= 10 && 0 <= p.position.y + t / 4 <= 21);
    assert(0 <= t % 4 <= 3 && 0 <= t / 4 <= 3);
}

/// The session state: one grid and one active piece, owned by the caller
/// and passed into every operation.
#[derive(Clone, Debug)]
pub struct GameState {
    pub active_tetromino: FallingTetromino,
    pub universe: Universe,
}

impl GameState {
    /// A session is well formed when its grid has the fixed dimensions
    /// with walls and floor solid, and its piece is well formed with every
    /// solid cell interior.
    pub open spec fn wf(self) -> bool {
        &&& self.universe.wf()
        &&& walls_floor_solid(self.universe.cells@)
        &&& self.active_tetromino.wf()
        &&& piece_in_interior(self.active_tetromino)
    }

    /// The composite text view: the grid with the active piece stamped in,
    /// rendered row by row. A query; the stamped grid is discarded.
    pub fn render(&self) -> (r: String)
        requires
            self.wf(),
        ensures
            r@ == render_spec(
                stamp_spec(
                    self.universe.cells@,
                    self.active_tetromino.matrix(),
                    self.active_tetromino.position.x as int,
                    self.active_tetromino.position.y as int,
                ),
            ),
    {
        proof {
            lemma_piece_in_bounds(self.active_tetromino);
        }
        self.universe.render_tetromino(&self.active_tetromino)
    }
}

/// A fresh session: the fixed grid and a piece spawned from the host's two
/// draws at the spawn anchor.
pub fn initialize_game_state(shape_draw: u8, rotation_draw: i8) -> (gs: GameState)
    requires
        0 <= rotation_draw < 4,
    ensures
        gs.wf(),
        gs.universe.cells@ == crate::universe::initial_cells(),
        gs.active_tetromino.position == (Point { x: SPAWN_X, y: SPAWN_Y }),
        gs.active_tetromino.tetromino.data@ == base_shape((shape_draw % 7) as int),
        gs.active_tetromino.tetromino.rotation == rotation_draw,
{
    let gs = GameState {
        active_tetromino: FallingTetromino::new(shape_draw, rotation_draw),
        universe: Universe::new(),
    };
    proof {
        assert forall|t: int|
            0 <= t < 16 && gs.active_tetromino.matrix()[t] == Cell::Solid implies 1
            <= gs.active_tetromino.position.x + t % 4 <= 10 && 0 <= gs.active_tetromino.position.y
            + t / 4 <= 21 by {
            assert(0 <= t % 4 <= 3 && 0 <= t / 4 <= 3);
        }
    }
    gs
}

/// Whether row `line_index` of the grid holds only solid cells.
pub fn full_line(game_state: &GameState, line_index: usize) -> (r: bool)
    requires
        game_state.universe.wf(),
        line_index < 23,
    ensures
        r == full_line_spec(game_state.universe.cells@, line_index as int),
{
    let mut x: usize = 0;
    while x < 12
        invariant
            game_state.universe.wf(),
            line_index < 23,
            x <= 12,
            forall|u: int|
                0 <= u < x ==> cell_of(game_state.universe.cells@, u, line_index as int)
                    == Cell::Solid,
        decreases 12 - x,
    {
        if game_state.universe.get_cell(x, line_index) != Cell::Solid {
            proof {
                assert(cell_of(game_state.universe.cells@, x as int, line_index as int)
                    != Cell::Solid);
            }
            return false;
        }
        x += 1;
    }
    true
}

/// Clear row `line_index`: every row strictly above it shifts down one
/// row, processed from the cleared row upward so each row's pre-shift
/// content is read before being overwritten. Row 0 keeps its content.
pub fn clear_line(game_state: &mut GameState, line_index: usize)
    requires
        old(game_state).universe.wf(),
        line_index < 22,
    ensures
        final(game_state).universe.wf(),
        final(game_state).universe.cells@ == clear_line_spec(
            old(game_state).universe.cells@,
            line_index as int,
        ),
        final(game_state).active_tetromino == old(game_state).active_tetromino,
{
    let ghost orig = game_state.universe.cells@;
    let mut line = line_index;
    proof {
        assert(game_state.universe.cells@ =~= Seq::new(
            276,
            |k: int|
                {
                    let r = k / 12;
                    if line < r <= line_index {
                        orig[k - 12]
                    } else {
                        orig[k]
                    }
                },
        ));
    }
    while line > 0
        invariant
            game_state.universe.wf(),
            line <= line_index < 22,
            game_state.active_tetromino == old(game_state).active_tetromino,
            orig == old(game_state).universe.cells@,
            game_state.universe.cells@ == Seq::new(
                276,
                |k: int|
                    {
                        let r = k / 12;
                        if line < r <= line_index {
                            orig[k - 12]
                        } else {
                            orig[k]
                        }
                    },
            ),
        decreases line,
    {
        line -= 1;
        let ghost entry = game_state.universe.cells@;
        let mut i: usize = 12 * line;
        while i < 12 * (line + 1)
            invariant
                game_state.universe.wf(),
                line <= line_index < 22,
                game_state.active_tetromino == old(game_state).active_tetromino,
                12 * line <= i <= 12 * (line + 1),
                entry == Seq::new(
                    276,
                    |k: int|
                        {
                            let r = k / 12;
                            if line + 1 < r <= line_index {
                                orig[k - 12]
                            } else {
                                orig[k]
                            }
                        },
                ),
                forall|k: int|
                    0 <= k < 276 ==> game_state.universe.cells@[k] == (if 12 * (line + 1) <= k
                        < i + 12 {
                        orig[k - 12]
                    } else {
                        entry[k]
                    }),
            decreases 12 * (line + 1) - i,
        {
            let v = game_state.universe.cells[i];
            game_state.universe.cells[i + 12] = v;
            proof {
                let ii = i as int;
                assert(ii / 12 == line && (ii + 12) / 12 == line + 1);
                assert(game_state.universe.cells@[ii + 12] == orig[ii]);
            }
            i += 1;
        }
        proof {
            assert forall|k: int|
                0 <= k < 276 implies game_state.universe.cells@[k] == (Seq::new(
                276,
                |k2: int|
                    {
                        let r = k2 / 12;
                        if line < r <= line_index {
                            orig[k2 - 12]
                        } else {
                            orig[k2]
                        }
                    },
            ))[k] by {
                let r = k / 12;
                assert(12 * (line + 1) <= k < 12 * (line + 2) ==> r == line + 1);
                assert(r == line + 1 ==> 12 * (line + 1) <= k < 12 * (line + 2));
            }
            assert(game_state.universe.cells@ =~= Seq::new(
                276,
                |k: int|
                    {
                        let r = k / 12;
                        if line < r <= line_index {
                            orig[k - 12]
                        } else {
                            orig[k]
                        }
                    },
            ));
        }
    }
    proof {
        assert(game_state.universe.cells@ =~= clear_line_spec(orig, line_index as int));
    }
}

/// One tick: the piece falls one row if the grid admits it; otherwise the
/// piece locks in place, every full row its bounding box spans (clamped to
/// the floor) is cleared in ascending order, and a fresh piece spawns from
/// the host's two draws.
pub fn drop_piece(game_state: &mut GameState, shape_draw: u8, rotation_draw: i8)
    requires
        old(game_state).wf(),
        0 <= rotation_draw < 4,
    ensures
        final(game_state).wf(),
        final(game_state).universe.wf(),
        ({
            let p = old(game_state).active_tetromino;
            let m = p.matrix();
            let px = p.position.x as int;
            let py = p.position.y as int;
            if can_place_spec(old(game_state).universe.cells@, m, px, py + 1) {
                final(game_state).universe.cells@ == old(game_state).universe.cells@
                    && final(game_state).active_tetromino.tetromino == p.tetromino
                    && final(game_state).active_tetromino.position == (Point {
                    x: p.position.x,
                    y: (py + 1) as usize,
                })
            } else {
                final(game_state).universe.cells@ == clear_upto(
                    stamp_spec(old(game_state).universe.cells@, m, px, py),
                    py,
                    if py + 4 <= 22 {
                        py + 4
                    } else {
                        22
                    },
                ) && final(game_state).active_tetromino.position == (Point {
                    x: SPAWN_X,
                    y: SPAWN_Y,
                }) && final(game_state).active_tetromino.tetromino.data@ == base_shape(
                    (shape_draw % 7) as int,
                ) && final(game_state).active_tetromino.tetromino.rotation == rotation_draw
            }
        }),
{
    proof {
        lemma_piece_in_bounds(game_state.active_tetromino);
    }
    let next_position = Point {
        x: game_state.active_tetromino.position.x,
        y: game_state.active_tetromino.position.y + 1,
    };
    let next_matrix = game_state.active_tetromino.tetromino.get_matrix();
    proof {
        assert forall|t: int|
            0 <= t < 16 && next_matrix.data@[t] == Cell::Solid implies 0 <= next_position.x + t % 4
            < 12 && 0 <= next_position.y + t / 4 < 23 by {
            assert(1 <= game_state.active_tetromino.position.x + t % 4 <= 10);
            assert(0 <= game_state.active_tetromino.position.y + t / 4 <= 21);
        }
    }
    if game_state.universe.can_place_matrix(&next_matrix, next_position) {
        game_state.active_tetromino.position = next_position;
        proof {
            lemma_can_place_interior(
                game_state.universe.cells@,
                game_state.active_tetromino.matrix(),
                next_position.x as int,
                next_position.y as int,
            );
        }
    } else {
        let stamped_universe = game_state.universe.with_matrix(
            &next_matrix,
            game_state.active_tetromino.position,
        );
        game_state.universe = stamped_universe;
        proof {
            crate::universe::lemma_stamp_walls(
                old(game_state).universe.cells@,
                next_matrix.data@,
                old(game_state).active_tetromino.position.x as int,
                old(game_state).active_tetromino.position.y as int,
            );
        }
        let ghost stamped = game_state.universe.cells@;
        let start = game_state.active_tetromino.position.y;
        let end: usize = if start + 4 <= 22 {
            start + 4
        } else {
            22
        };
        let mut i = start;
        while i < end
            invariant
                game_state.universe.wf(),
                walls_floor_solid(game_state.universe.cells@),
                start <= i <= end,
                end <= 22,
                game_state.universe.cells@ == clear_upto(stamped, start as int, i as int),
            decreases end - i,
        {
            if full_line(game_state, i) {
                clear_line(game_state, i);
                proof {
                    lemma_clear_line_walls(
                        clear_upto(stamped, start as int, i as int),
                        i as int,
                    );
                }
            }
            i += 1;
        }
        game_state.active_tetromino = FallingTetromino::new(shape_draw, rotation_draw);
        proof {
            assert forall|t: int|
                0 <= t < 16 && game_state.active_tetromino.matrix()[t] == Cell::Solid implies 1
                <= game_state.active_tetromino.position.x + t % 4 <= 10 && 0
                <= game_state.active_tetromino.position.y + t / 4 <= 21 by {
                assert(0 <= t % 4 <= 3 && 0 <= t / 4 <= 3);
            }
        }
    }
}

/// Advance the game state by one tick. The host's two draws choose the
/// next piece if this tick locks the current one.
pub fn update_state(game_state: &mut GameState, shape_draw: u8, rotation_draw: i8)
    requires
        old(game_state).wf(),
        0 <= rotation_draw < 4,
    ensures
        final(game_state).wf(),
        ({
            let p = old(game_state).active_tetromino;
            let m = p.matrix();
            let px = p.position.x as int;
            let py = p.position.y as int;
            if can_place_spec(old(game_state).universe.cells@, m, px, py + 1) {
                final(game_state).universe.cells@ == old(game_state).universe.cells@
                    && final(game_state).active_tetromino.tetromino == p.tetromino
                    && final(game_state).active_tetromino.position == (Point {
                    x: p.position.x,
                    y: (py + 1) as usize,
                })
            } else {
                final(game_state).universe.cells@ == clear_upto(
                    stamp_spec(old(game_state).universe.cells@, m, px, py),
                    py,
                    if py + 4 <= 22 {
                        py + 4
                    } else {
                        22
                    },
                ) && final(game_state).active_tetromino.position == (Point {
                    x: SPAWN_X,
                    y: SPAWN_Y,
                }) && final(game_state).active_tetromino.tetromino.data@ == base_shape(
                    (shape_draw % 7) as int,
                ) && final(game_state).active_tetromino.tetromino.rotation == rotation_draw
            }
        }),
{
    drop_piece(game_state, shape_draw, rotation_draw)
}

/// The composite text view of the session.
pub fn render_frame(game_state: &GameState) -> (r: String)
    requires
        game_state.wf(),
    ensures
        r@ == render_spec(
            stamp_spec(
                game_state.universe.cells@,
                game_state.active_tetromino.matrix(),
                game_state.active_tetromino.position.x as int,
                game_state.active_tetromino.position.y as int,
            ),
        ),
{
    game_state.render()
}

/// Attempt a one-column shift to the left. The shift commits only if the
/// anchor can decrease and the grid admits the piece there; otherwise the
/// piece is left exactly as it was — no error, no signal.
pub fn left_input(game_state: &mut GameState)
    requires
        old(game_state).wf(),
    ensures
        final(game_state).wf(),
        final(game_state).universe.cells@ == old(game_state).universe.cells@,
        final(game_state).universe.width == old(game_state).universe.width,
        final(game_state).universe.height == old(game_state).universe.height,
        final(game_state).active_tetromino.tetromino == old(
            game_state,
        ).active_tetromino.tetromino,
        ({
            let p = old(game_state).active_tetromino;
            if p.position.x > 0 && can_place_spec(
                old(game_state).universe.cells@,
                p.matrix(),
                p.position.x - 1,
                p.position.y as int,
            ) {
                final(game_state).active_tetromino.position == (Point {
                    x: (p.position.x - 1) as usize,
                    y: p.position.y,
                })
            } else {
                final(game_state).active_tetromino.position == p.position
            }
        }),
{
    proof {
        lemma_piece_in_bounds(game_state.active_tetromino);
    }
    if game_state.active_tetromino.position.x > 0 {
        let next_position = Point {
            x: game_state.active_tetromino.position.x - 1,
            y: game_state.active_tetromino.position.y,
        };
        let matrix = game_state.active_tetromino.tetromino.get_matrix();
        proof {
            assert forall|t: int|
                0 <= t < 16 && matrix.data@[t] == Cell::Solid implies 0 <= next_position.x + t % 4
                < 12 && 0 <= next_position.y + t / 4 < 23 by {
                assert(1 <= game_state.active_tetromino.position.x + t % 4 <= 10);
                assert(0 <= game_state.active_tetromino.position.y + t / 4 <= 21);
            }
        }
        if game_state.universe.can_place_matrix(&matrix, next_position) {
            game_state.active_tetromino.position = next_position;
            proof {
                lemma_can_place_interior(
                    game_state.universe.cells@,
                    game_state.active_tetromino.matrix(),
                    next_position.x as int,
                    next_position.y as int,
                );
            }
        }
    }
}

/// Attempt a one-column shift to the right. The shift commits only if the
/// grid admits the piece there; otherwise the piece is left exactly as it
/// was — no error, no signal.
pub fn right_input(game_state: &mut GameState)
    requires
        old(game_state).wf(),
    ensures
        final(game_state).wf(),
        final(game_state).universe.cells@ == old(game_state).universe.cells@,
        final(game_state).universe.width == old(game_state).universe.width,
        final(game_state).universe.height == old(game_state).universe.height,
        final(game_state).active_tetromino.tetromino == old(
            game_state,
        ).active_tetromino.tetromino,
        ({
            let p = old(game_state).active_tetromino;
            if can_place_spec(
                old(game_state).universe.cells@,
                p.matrix(),
                p.position.x + 1,
                p.position.y as int,
            ) {
                final(game_state).active_tetromino.position == (Point {
                    x: (p.position.x + 1) as usize,
                    y: p.position.y,
                })
            } else {
                final(game_state).active_tetromino.position == p.position
            }
        }),
{
    proof {
        lemma_piece_in_bounds(game_state.active_tetromino);
    }
    let next_position = Point {
        x: game_state.active_tetromino.position.x + 1,
        y: game_state.active_tetromino.position.y,
    };
    let matrix = game_state.active_tetromino.tetromino.get_matrix();
    proof {
        assert forall|t: int|
            0 <= t < 16 && matrix.data@[t] == Cell::Solid implies 0 <= next_position.x + t % 4 < 12
            && 0 <= next_position.y + t / 4 < 23 by {
            assert(1 <= game_state.active_tetromino.position.x + t % 4 <= 10);
            assert(0 <= game_state.active_tetromino.position.y + t / 4 <= 21);
        }
    }
    if game_state.universe.can_place_matrix(&matrix, next_position) {
        game_state.active_tetromino.position = next_position;
        proof {
            lemma_can_place_interior(
                game_state.universe.cells@,
                game_state.active_tetromino.matrix(),
                next_position.x as int,
                next_position.y as int,
            );
        }
    }
}

/// Every solid cell of the matrix, offset by the anchor, lies inside the
/// grid.
fn matrix_fits(matrix: &CellMatrix, position: Point) -> (r: bool)
    requires
        matrix.wf(),
    ensures
        r == in_bounds_spec(matrix.data@, position.x as int, position.y as int),
{
    let mut t: usize = 0;
    while t < 16
        invariant
            matrix.wf(),
            t <= 16,
            forall|u: int|
                0 <= u < t && matrix.data@[u] == Cell::Solid ==> 0 <= position.x + u % 4 < 12 && 0
                    <= position.y + u / 4 < 23,
        decreases 16 - t,
    {
        if matrix.data[t] == Cell::Solid {
            if !(position.x <= 11 - t % 4 && position.y <= 22 - t / 4) {
                proof {
                    let ti = t as int;
                    assert(matrix.data@[ti] == Cell::Solid && !(position.x + ti % 4 < 12
                        && position.y + ti / 4 < 23));
                    assert(!in_bounds_spec(matrix.data@, position.x as int, position.y as int));
                }
                return false;
            }
        }
        t += 1;
    }
    true
}

/// Attempt a counter-clockwise rotation in place. The candidate matrix is
/// materialized and tested at the unchanged anchor; the orientation change
/// commits only if every solid candidate cell lies inside the grid on an
/// empty cell. There is no kick or offset search: a rotation that would
/// overlap a solid cell is rejected in place.
pub fn left_rotate_input(game_state: &mut GameState)
    requires
        old(game_state).wf(),
    ensures
        final(game_state).wf(),
        final(game_state).universe.cells@ == old(game_state).universe.cells@,
        final(game_state).universe.width == old(game_state).universe.width,
        final(game_state).universe.height == old(game_state).universe.height,
        final(game_state).active_tetromino.position == old(game_state).active_tetromino.position,
        final(game_state).active_tetromino.tetromino.data@ == old(
            game_state,
        ).active_tetromino.tetromino.data@,
        ({
            let p = old(game_state).active_tetromino;
            let cand = rotated_spec(p.tetromino.data@, next_rot(p.tetromino.rot()));
            if in_bounds_spec(cand, p.position.x as int, p.position.y as int) && can_place_spec(
                old(game_state).universe.cells@,
                cand,
                p.position.x as int,
                p.position.y as int,
            ) {
                final(game_state).active_tetromino.tetromino.rot() == next_rot(p.tetromino.rot())
                    && final(game_state).active_tetromino.tetromino.rotation as int == (
                if p.tetromino.rotation == 3 {
                    0int
                } else {
                    p.tetromino.rotation + 1
                })
            } else {
                final(game_state).active_tetromino.tetromino.rotation == p.tetromino.rotation
            }
        }),
{
    let mut the_piece = FallingTetromino {
        tetromino: TetrominoState {
            data: game_state.active_tetromino.tetromino.data.clone(),
            rotation: game_state.active_tetromino.tetromino.rotation,
        },
        position: game_state.active_tetromino.position,
    };
    proof {
        assert(the_piece.tetromino.data@ =~= game_state.active_tetromino.tetromino.data@);
    }
    the_piece.rotate_left();
    let the_matrix = the_piece.get_matrix();
    if matrix_fits(&the_matrix, the_piece.position) {
        if game_state.universe.can_place_matrix(&the_matrix, the_piece.position) {
            game_state.active_tetromino.rotate_left();
            proof {
                lemma_can_place_interior(
                    game_state.universe.cells@,
                    game_state.active_tetromino.matrix(),
                    game_state.active_tetromino.position.x as int,
                    game_state.active_tetromino.position.y as int,
                );
            }
        }
    }
}

/// Attempt a clockwise rotation in place, under the same rule as the
/// counter-clockwise one.
pub fn right_rotate_input(game_state: &mut GameState)
    requires
        old(game_state).wf(),
    ensures
        final(game_state).wf(),
        final(game_state).universe.cells@ == old(game_state).universe.cells@,
        final(game_state).universe.width == old(game_state).universe.width,
        final(game_state).universe.height == old(game_state).universe.height,
        final(game_state).active_tetromino.position == old(game_state).active_tetromino.position,
        final(game_state).active_tetromino.tetromino.data@ == old(
            game_state,
        ).active_tetromino.tetromino.data@,
        ({
            let p = old(game_state).active_tetromino;
            let cand = rotated_spec(p.tetromino.data@, prev_rot(p.tetromino.rot()));
            if in_bounds_spec(cand, p.position.x as int, p.position.y as int) && can_place_spec(
                old(game_state).universe.cells@,
                cand,
                p.position.x as int,
                p.position.y as int,
            ) {
                final(game_state).active_tetromino.tetromino.rot() == prev_rot(p.tetromino.rot())
                    && final(game_state).active_tetromino.tetromino.rotation as int == (
                if p.tetromino.rotation == -3 {
                    0int
                } else {
                    p.tetromino.rotation - 1
                })
            } else {
                final(game_state).active_tetromino.tetromino.rotation == p.tetromino.rotation
            }
        }),
{
    let mut the_piece = FallingTetromino {
        tetromino: TetrominoState {
            data: game_state.active_tetromino.tetromino.data.clone(),
            rotation: game_state.active_tetromino.tetromino.rotation,
        },
        position: game_state.active_tetromino.position,
    };
    proof {
        assert(the_piece.tetromino.data@ =~= game_state.active_tetromino.tetromino.data@);
    }
    the_piece.rotate_right();
    let the_matrix = the_piece.get_matrix();
    if matrix_fits(&the_matrix, the_piece.position) {
        if game_state.universe.can_place_matrix(&the_matrix, the_piece.position) {
            game_state.active_tetromino.rotate_right();
            proof {
                lemma_can_place_interior(
                    game_state.universe.cells@,
                    game_state.active_tetromino.matrix(),
                    game_state.active_tetromino.position.x as int,
                    game_state.active_tetromino.position.y as int,
                );
            }
        }
    }
}

} // verus!
