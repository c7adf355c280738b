//! The grid: a fixed 12x23 cell array with border walls and a floor baked
//! in as solid cells, plus indexing, piece stamping, collision testing and
//! the renderable text view of the visible region.

use vstd::prelude::*;

use crate::cell::{Cell, CellMatrix, Point};
use crate::tetromino::FallingTetromino;

verus! {

/// Grid width in cells, the two border columns included.
pub const UNIVERSE_WIDTH: usize = 12;

/// Grid height in cells, the hidden spawn rows and the floor row included.
pub const UNIVERSE_HEIGHT: usize = 23;

/// Rows at the top of the grid that are addressable but never rendered:
/// the spawn buffer above the visible playfield.
pub const HIDDEN_ROWS: usize = 2;

/// The cell of a row-major 12-wide grid at column `x`, row `y`.
pub open spec fn cell_of(cells: Seq<Cell>, x: int, y: int) -> Cell {
    cells[y * 12 + x]
}

/// Every solid cell of the matrix, offset by the anchor, lands inside the
/// grid. Empty matrix cells are unconstrained.
pub open spec fn in_bounds_spec(m: Seq<Cell>, px: int, py: int) -> bool {
    forall|t: int|
        0 <= t < 16 && m[t] == Cell::Solid ==> 0 <= px + t % 4 < 12 && 0 <= py + t / 4 < 23
}

/// No solid cell of the matrix, offset by the anchor, lands on a cell that
/// is already solid in the grid. Empty matrix cells are never tested, so a
/// piece's empty cells never block placement.
pub open spec fn can_place_spec(cells: Seq<Cell>, m: Seq<Cell>, px: int, py: int) -> bool {
    forall|t: int|
        0 <= t < 16 && m[t] == Cell::Solid ==> cell_of(cells, px + t % 4, py + t / 4)
            != Cell::Solid
}

/// Grid index `k` is hit by one of the first `n` matrix cells that is solid,
/// offset by the anchor.
pub open spec fn covers_upto(m: Seq<Cell>, px: int, py: int, k: int, n: int) -> bool {
    exists|t: int|
        0 <= t < n && m[t] == Cell::Solid && k == (py + t / 4) * 12 + (px + t % 4)
}

/// The grid after stamping the first `n` matrix cells: every hit index is
/// solid, every other cell keeps its value.
pub open spec fn stamp_upto(cells: Seq<Cell>, m: Seq<Cell>, px: int, py: int, n: int) -> Seq<
    Cell,
> {
    Seq::new(
        cells.len(),
        |k: int|
            if covers_upto(m, px, py, k, n) {
                Cell::Solid
            } else {
                cells[k]
            },
    )
}

/// The grid after stamping the whole matrix at the anchor: solid matrix
/// cells are OR'ed in, no cell is ever cleared.
pub open spec fn stamp_spec(cells: Seq<Cell>, m: Seq<Cell>, px: int, py: int) -> Seq<Cell> {
    stamp_upto(cells, m, px, py, 16)
}

/// Column 0, column 11 and the last row hold only solid cells: the walls
/// and the floor.
pub open spec fn walls_floor_solid(cells: Seq<Cell>) -> bool {
    &&& forall|y: int|
        0 <= y < 23 ==> cell_of(cells, 0, y) == Cell::Solid && cell_of(cells, 11, y)
            == Cell::Solid
    &&& forall|x: int| 0 <= x < 12 ==> cell_of(cells, x, 22) == Cell::Solid
}

/// The freshly created grid: walls and floor solid, every interior cell of
/// every row but the last empty.
pub open spec fn initial_cells() -> Seq<Cell> {
    Seq::new(
        276,
        |k: int|
            if k / 12 < 22 && k % 12 != 0 && k % 12 != 11 {
                Cell::Empty
            } else {
                Cell::Solid
            },
    )
}

/// The glyph a cell renders to.
pub open spec fn glyph(c: Cell) -> char {
    if c == Cell::Empty {
        '\u{25fb}'
    } else {
        '\u{25fc}'
    }
}

/// The text view of a grid: one line per visible row — the hidden rows and
/// the floor row excluded — holding one glyph per interior column and a
/// terminating newline.
pub open spec fn render_spec(cells: Seq<Cell>) -> Seq<char> {
    Seq::new(
        220,
        |k: int|
            if k % 11 == 10 {
                '\n'
            } else {
                glyph(cell_of(cells, 1 + k % 11, 2 + k / 11))
            },
    )
}

/// An all-empty matrix can always be placed, whatever the anchor: no cell
/// of it is ever tested against the grid.
pub proof fn lemma_can_place_empty(cells: Seq<Cell>, m: Seq<Cell>, px: int, py: int)
    requires
        forall|t: int| 0 <= t < 16 ==> m[t] != Cell::Solid,
    ensures
        can_place_spec(cells, m, px, py),
{
}

/// Where the walls and the floor are solid, a placeable matrix touches only
/// interior columns and rows above the floor.
pub proof fn lemma_can_place_interior(cells: Seq<Cell>, m: Seq<Cell>, px: int, py: int)
    requires
        cells.len() == 276,
        walls_floor_solid(cells),
        in_bounds_spec(m, px, py),
        can_place_spec(cells, m, px, py),
    ensures
        forall|t: int|
            0 <= t < 16 && m[t] == Cell::Solid ==> 1 <= px + t % 4 <= 10 && 0 <= py + t / 4
                <= 21,
{
    assert forall|t: int|
        0 <= t < 16 && m[t] == Cell::Solid implies 1 <= px + t % 4 <= 10 && 0 <= py + t / 4
        <= 21 by {
        let cx = px + t % 4;
        let cy = py + t / 4;
        assert(0 <= cx < 12 && 0 <= cy < 23);
        assert(cell_of(cells, cx, cy) != Cell::Solid);
        if cx == 0 {
            assert(cell_of(cells, 0, cy) == Cell::Solid);
        }
        if cx == 11 {
            assert(cell_of(cells, 11, cy) == Cell::Solid);
        }
        if cy == 22 {
            assert(cell_of(cells, cx, 22) == Cell::Solid);
        }
    }
}

/// Stamping never clears a cell, so it keeps the walls and the floor solid.
pub proof fn lemma_stamp_walls(cells: Seq<Cell>, m: Seq<Cell>, px: int, py: int)
    requires
        cells.len() == 276,
        walls_floor_solid(cells),
    ensures
        walls_floor_solid(stamp_spec(cells, m, px, py)),
{
    let stamped = stamp_spec(cells, m, px, py);
    assert forall|y: int| 0 <= y < 23 implies cell_of(stamped, 0, y) == Cell::Solid && cell_of(
        stamped,
        11,
        y,
    ) == Cell::Solid by {
        assert(cell_of(cells, 0, y) == Cell::Solid);
        assert(cell_of(cells, 11, y) == Cell::Solid);
    }
    assert forall|x: int| 0 <= x < 12 implies cell_of(stamped, x, 22) == Cell::Solid by {
        assert(cell_of(cells, x, 22) == Cell::Solid);
    }
}

/// Relies on `String::from_iter` for `char`: the string holds exactly the
/// characters of the vector, in order.
#[verifier::external_body]
fn chars_to_string(v: Vec<char>) -> (r: String)
    ensures
        r@ == v@,
{
    v.into_iter().collect()
}

/// The grid. Walls and floor are baked in as solid cells at creation, so
/// collision with them needs no special case.
#[derive(Clone, Debug)]
pub struct Universe {
    pub width: usize,
    pub height: usize,
    pub cells: Vec<Cell>,
}

impl Universe {
    /// A grid is well formed when it has the fixed dimensions and one cell
    /// per position.
    pub open spec fn wf(self) -> bool {
        &&& self.width == 12
        &&& self.height == 23
        &&& self.cells@.len() == 276
    }

    /// A fresh grid: every cell solid except the interior cells of every
    /// row but the last, which are empty.
    pub fn new() -> (u: Universe)
        ensures
            u.wf(),
            u.cells@ == initial_cells(),
            walls_floor_solid(u.cells@),
            forall|x: int, y: int|
                0 <= x < 12 && 0 <= y < 23 ==> cell_of(u.cells@, x, y) == (if x == 0 || x == 11
                    || y == 22 {
                    Cell::Solid
                } else {
                    Cell::Empty
                }),
    {
        let mut cells: Vec<Cell> = Vec::new();
        let mut i: usize = 0;
        while i < 276
            invariant
                i <= 276,
                cells@.len() == i,
                forall|k: int| 0 <= k < i ==> cells@[k] == initial_cells()[k],
            decreases 276 - i,
        {
            let c = if i / 12 < 22 && i % 12 != 0 && (i + 1) % 12 != 0 {
                Cell::Empty
            } else {
                Cell::Solid
            };
            cells.push(c);
            i += 1;
        }
        proof {
            assert(cells@ =~= initial_cells());
            assert forall|x: int, y: int| 0 <= x < 12 && 0 <= y < 23 implies cell_of(
                cells@,
                x,
                y,
            ) == (if x == 0 || x == 11 || y == 22 {
                Cell::Solid
            } else {
                Cell::Empty
            }) by {
                let k = y * 12 + x;
                assert(0 <= k < 276);
                assert(k / 12 == y && k % 12 == x);
            }
        }
        Universe { width: UNIVERSE_WIDTH, height: UNIVERSE_HEIGHT, cells }
    }

    /// The row-major offset of column `x`, row `y`.
    pub fn get_index(&self, x: usize, y: usize) -> (r: usize)
        requires
            self.wf(),
            x < 12,
            y < 23,
        ensures
            r == y * 12 + x,
            r < 276,
    {
        y * self.width + x
    }

    /// The cell at column `x`, row `y`.
    pub fn get_cell(&self, x: usize, y: usize) -> (c: Cell)
        requires
            self.wf(),
            x < 12,
            y < 23,
        ensures
            c == cell_of(self.cells@, x as int, y as int),
    {
        let index = self.get_index(x, y);
        self.cells[index]
    }

    /// A copy of the grid with the matrix stamped in at the anchor: every
    /// solid matrix cell is set to solid at its offset position, and no
    /// cell is ever cleared. Used both to lock a piece permanently and to
    /// build the transient composite that rendering shows.
    pub fn with_matrix(&self, matrix: &CellMatrix, position: Point) -> (u: Universe)
        requires
            self.wf(),
            matrix.wf(),
            in_bounds_spec(matrix.data@, position.x as int, position.y as int),
        ensures
            u.wf(),
            u.cells@ == stamp_spec(
                self.cells@,
                matrix.data@,
                position.x as int,
                position.y as int,
            ),
    {
        let px = position.x;
        let py = position.y;
        let ghost m = matrix.data@;
        let mut base = self.cells.clone();
        proof {
            assert(base@ =~= self.cells@);
            assert(base@ =~= stamp_upto(self.cells@, m, px as int, py as int, 0));
        }
        let mut t: usize = 0;
        while t < 16
            invariant
                self.wf(),
                matrix.wf(),
                m == matrix.data@,
                in_bounds_spec(m, px as int, py as int),
                t <= 16,
                base@ == stamp_upto(self.cells@, m, px as int, py as int, t as int),
            decreases 16 - t,
        {
            let ghost prev = base@;
            if matrix.data[t] == Cell::Solid {
                let index = self.get_index(px + t % 4, py + t / 4);
                base[index] = Cell::Solid;
                proof {
                    let pxi = px as int;
                    let pyi = py as int;
                    let ti = t as int;
                    let idx = (pyi + ti / 4) * 12 + (pxi + ti % 4);
                    assert(index == idx);
                    assert forall|k: int|
                        0 <= k < 276 implies base@[k] == stamp_upto(
                        self.cells@,
                        m,
                        pxi,
                        pyi,
                        ti + 1,
                    )[k] by {
                        if k == idx {
                            assert(covers_upto(m, pxi, pyi, k, ti + 1));
                        } else {
                            if covers_upto(m, pxi, pyi, k, ti + 1) {
                                let w = choose|w: int|
                                    0 <= w < ti + 1 && m[w] == Cell::Solid && k == (pyi + w / 4)
                                        * 12 + (pxi + w % 4);
                                assert(w < ti);
                                assert(covers_upto(m, pxi, pyi, k, ti));
                            }
                            if covers_upto(m, pxi, pyi, k, ti) {
                                let w = choose|w: int|
                                    0 <= w < ti && m[w] == Cell::Solid && k == (pyi + w / 4) * 12
                                        + (pxi + w % 4);
                                assert(covers_upto(m, pxi, pyi, k, ti + 1));
                            }
                        }
                    }
                    assert(base@ =~= stamp_upto(self.cells@, m, pxi, pyi, ti + 1));
                }
            } else {
                proof {
                    let pxi = px as int;
                    let pyi = py as int;
                    let ti = t as int;
                    assert forall|k: int|
                        0 <= k < 276 implies base@[k] == stamp_upto(
                        self.cells@,
                        m,
                        pxi,
                        pyi,
                        ti + 1,
                    )[k] by {
                        if covers_upto(m, pxi, pyi, k, ti + 1) {
                            let w = choose|w: int|
                                0 <= w < ti + 1 && m[w] == Cell::Solid && k == (pyi + w / 4) * 12
                                    + (pxi + w % 4);
                            assert(w < ti);
                            assert(covers_upto(m, pxi, pyi, k, ti));
                        }
                        if covers_upto(m, pxi, pyi, k, ti) {
                            assert(covers_upto(m, pxi, pyi, k, ti + 1));
                        }
                    }
                    assert(base@ =~= stamp_upto(self.cells@, m, pxi, pyi, ti + 1));
                }
            }
            t += 1;
        }
        Universe { width: UNIVERSE_WIDTH, height: UNIVERSE_HEIGHT, cells: base }
    }

    /// Whether the matrix can be placed at the anchor: false iff some solid
    /// matrix cell lands on a cell that is already solid in the grid. Wall
    /// and floor collision falls out of the pre-marked solid border cells.
    pub fn can_place_matrix(&self, matrix: &CellMatrix, position: Point) -> (r: bool)
        requires
            self.wf(),
            matrix.wf(),
            in_bounds_spec(matrix.data@, position.x as int, position.y as int),
        ensures
            r == can_place_spec(
                self.cells@,
                matrix.data@,
                position.x as int,
                position.y as int,
            ),
    {
        let px = position.x;
        let py = position.y;
        let mut t: usize = 0;
        while t < 16
            invariant
                self.wf(),
                matrix.wf(),
                px == position.x,
                py == position.y,
                in_bounds_spec(matrix.data@, px as int, py as int),
                t <= 16,
                forall|u: int|
                    0 <= u < t && matrix.data@[u] == Cell::Solid ==> cell_of(
                        self.cells@,
                        px + u % 4,
                        py + u / 4,
                    ) != Cell::Solid,
            decreases 16 - t,
        {
            if matrix.data[t] == Cell::Solid {
                let index = self.get_index(px + t % 4, py + t / 4);
                if self.cells[index] == Cell::Solid {
                    proof {
                        let ti = t as int;
                        assert(matrix.data@[ti] == Cell::Solid && cell_of(
                            self.cells@,
                            px + ti % 4,
                            py + ti / 4,
                        ) == Cell::Solid);
                        assert(!can_place_spec(
                            self.cells@,
                            matrix.data@,
                            px as int,
                            py as int,
                        ));
                    }
                    return false;
                }
            }
            t += 1;
        }
        true
    }

    /// Whether a solid cell of the matrix's top row falls within the hidden
    /// rows at the anchor. A top-out detector; no transition consumes it.
    pub fn matrix_intersects_top(&self, matrix: &CellMatrix, position: Point) -> (r: bool)
        requires
            matrix.wf(),
        ensures
            r == ((exists|j: int| 0 <= j < 4 && matrix.data@[j] == Cell::Solid)
                && position.y < HIDDEN_ROWS),
    {
        let mut j: usize = 0;
        while j < 4
            invariant
                matrix.wf(),
                j <= 4,
                forall|u: int|
                    0 <= u < j ==> !(matrix.data@[u] == Cell::Solid && position.y
                        < HIDDEN_ROWS),
            decreases 4 - j,
        {
            if matrix.data[j] == Cell::Solid && position.y < HIDDEN_ROWS {
                return true;
            }
            j += 1;
        }
        false
    }

    /// The text view of the grid: one newline-terminated line per visible
    /// row, one glyph per interior column, empty and solid cells rendered
    /// as distinct glyphs.
    pub fn render(&self) -> (r: String)
        requires
            self.wf(),
        ensures
            r@ == render_spec(self.cells@),
    {
        let mut out: Vec<char> = Vec::new();
        let mut y: usize = HIDDEN_ROWS;
        while y < 22
            invariant
                self.wf(),
                2 <= y <= 22,
                out@.len() == (y - 2) * 11,
                forall|i: int| 0 <= i < out@.len() ==> out@[i] == render_spec(self.cells@)[i],
            decreases 22 - y,
        {
            let mut x: usize = 1;
            while x < 11
                invariant
                    self.wf(),
                    2 <= y < 22,
                    1 <= x <= 11,
                    out@.len() == (y - 2) * 11 + (x - 1),
                    forall|i: int|
                        0 <= i < out@.len() ==> out@[i] == render_spec(self.cells@)[i],
                decreases 11 - x,
            {
                let cell = self.get_cell(x, y);
                let sym = if cell == Cell::Empty {
                    '\u{25fb}'
                } else {
                    '\u{25fc}'
                };
                out.push(sym);
                proof {
                    let p = (y - 2) * 11 + (x - 1);
                    assert(p % 11 == x - 1 && p / 11 == y - 2);
                    assert(out@[p as int] == render_spec(self.cells@)[p as int]);
                }
                x += 1;
            }
            out.push('\n');
            proof {
                let p = (y - 2) * 11 + 10;
                assert(p % 11 == 10 && p / 11 == y - 2);
                assert(out@[p as int] == render_spec(self.cells@)[p as int]);
            }
            y += 1;
        }
        proof {
            assert(out@ =~= render_spec(self.cells@));
        }
        chars_to_string(out)
    }

    /// The composite text view with the active piece stamped in. The
    /// composite grid is transient: it is rendered and discarded, never
    /// stored.
    pub fn render_tetromino(&self, tetr: &FallingTetromino) -> (r: String)
        requires
            self.wf(),
            tetr.wf(),
            in_bounds_spec(tetr.matrix(), tetr.position.x as int, tetr.position.y as int),
        ensures
            r@ == render_spec(
                stamp_spec(
                    self.cells@,
                    tetr.matrix(),
                    tetr.position.x as int,
                    tetr.position.y as int,
                ),
            ),
    {
        let with_tetromino = self.with_matrix(&tetr.get_matrix(), tetr.position);
        with_tetromino.render()
    }
}

} // verus!
