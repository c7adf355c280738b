//! The shape catalog — the seven canonical pieces as 4x4 occupancy
//! matrices — and the piece state: an orientation count bound to a shape,
//! and an active piece anchored at a grid position.

use vstd::prelude::*;

use crate::cell::{has_solid, Cell, CellMatrix, Point};
use crate::rotation::{
    invert_cols, invert_rows, next_rot, prev_rot, rotated_spec, transpose_matrix,
};

verus! {

/// The column where every freshly spawned piece is anchored.
pub const SPAWN_X: usize = 4;

/// The row where every freshly spawned piece is anchored: the top of the
/// hidden spawn buffer.
pub const SPAWN_Y: usize = 0;

/// The I piece: a vertical bar in column 1.
pub open spec fn shape_i() -> Seq<Cell> {
    seq![
        Cell::Empty, Cell::Solid, Cell::Empty, Cell::Empty,
        Cell::Empty, Cell::Solid, Cell::Empty, Cell::Empty,
        Cell::Empty, Cell::Solid, Cell::Empty, Cell::Empty,
        Cell::Empty, Cell::Solid, Cell::Empty, Cell::Empty,
    ]
}

/// The J piece.
pub open spec fn shape_j() -> Seq<Cell> {
    seq![
        Cell::Empty, Cell::Solid, Cell::Solid, Cell::Empty,
        Cell::Empty, Cell::Solid, Cell::Empty, Cell::Empty,
        Cell::Empty, Cell::Solid, Cell::Empty, Cell::Empty,
        Cell::Empty, Cell::Empty, Cell::Empty, Cell::Empty,
    ]
}

/// The L piece.
pub open spec fn shape_l() -> Seq<Cell> {
    seq![
        Cell::Empty, Cell::Solid, Cell::Solid, Cell::Empty,
        Cell::Empty, Cell::Empty, Cell::Solid, Cell::Empty,
        Cell::Empty, Cell::Empty, Cell::Solid, Cell::Empty,
        Cell::Empty, Cell::Empty, Cell::Empty, Cell::Empty,
    ]
}

/// The O piece: a 2x2 block.
pub open spec fn shape_o() -> Seq<Cell> {
    seq![
        Cell::Empty, Cell::Empty, Cell::Empty, Cell::Empty,
        Cell::Empty, Cell::Solid, Cell::Solid, Cell::Empty,
        Cell::Empty, Cell::Solid, Cell::Solid, Cell::Empty,
        Cell::Empty, Cell::Empty, Cell::Empty, Cell::Empty,
    ]
}

/// The S piece.
pub open spec fn shape_s() -> Seq<Cell> {
    seq![
        Cell::Empty, Cell::Empty, Cell::Empty, Cell::Empty,
        Cell::Empty, Cell::Solid, Cell::Solid, Cell::Empty,
        Cell::Solid, Cell::Solid, Cell::Empty, Cell::Empty,
        Cell::Empty, Cell::Empty, Cell::Empty, Cell::Empty,
    ]
}

/// The T piece.
pub open spec fn shape_t() -> Seq<Cell> {
    seq![
        Cell::Empty, Cell::Empty, Cell::Empty, Cell::Empty,
        Cell::Solid, Cell::Solid, Cell::Solid, Cell::Empty,
        Cell::Empty, Cell::Solid, Cell::Empty, Cell::Empty,
        Cell::Empty, Cell::Empty, Cell::Empty, Cell::Empty,
    ]
}

/// The Z piece.
pub open spec fn shape_z() -> Seq<Cell> {
    seq![
        Cell::Empty, Cell::Empty, Cell::Empty, Cell::Empty,
        Cell::Empty, Cell::Solid, Cell::Solid, Cell::Empty,
        Cell::Empty, Cell::Empty, Cell::Solid, Cell::Solid,
        Cell::Empty, Cell::Empty, Cell::Empty, Cell::Empty,
    ]
}

/// The catalog entry a reduced draw in 0..7 selects.
pub open spec fn base_shape(k: int) -> Seq<Cell> {
    if k == 0 {
        shape_i()
    } else if k == 1 {
        shape_o()
    } else if k == 2 {
        shape_l()
    } else if k == 3 {
        shape_s()
    } else if k == 4 {
        shape_j()
    } else if k == 5 {
        shape_t()
    } else {
        shape_z()
    }
}

/// Append one row of four cells to a matrix being built.
fn push_row(v: &mut Vec<Cell>, a: Cell, b: Cell, c: Cell, d: Cell)
    ensures
        final(v)@ == old(v)@ + seq![a, b, c, d],
{
    v.push(a);
    v.push(b);
    v.push(c);
    v.push(d);
    proof {
        assert(v@ =~= old(v)@ + seq![a, b, c, d]);
    }
}

/// The shape a raw draw selects: the draw is reduced modulo 7 and mapped
/// onto the catalog.
pub fn tetromino_from_draw(x: u8) -> (v: Vec<Cell>)
    ensures
        v@ == base_shape((x % 7) as int),
        v@.len() == 16,
        has_solid(v@),
{
    let e = Cell::Empty;
    let s = Cell::Solid;
    let mut v: Vec<Cell> = Vec::new();
    match x % 7 {
        0 => {
            push_row(&mut v, e, s, e, e);
            push_row(&mut v, e, s, e, e);
            push_row(&mut v, e, s, e, e);
            push_row(&mut v, e, s, e, e);
            proof {
                assert(v@ =~= shape_i());
            }
        },
        1 => {
            push_row(&mut v, e, e, e, e);
            push_row(&mut v, e, s, s, e);
            push_row(&mut v, e, s, s, e);
            push_row(&mut v, e, e, e, e);
            proof {
                assert(v@ =~= shape_o());
            }
        },
        2 => {
            push_row(&mut v, e, s, s, e);
            push_row(&mut v, e, e, s, e);
            push_row(&mut v, e, e, s, e);
            push_row(&mut v, e, e, e, e);
            proof {
                assert(v@ =~= shape_l());
            }
        },
        3 => {
            push_row(&mut v, e, e, e, e);
            push_row(&mut v, e, s, s, e);
            push_row(&mut v, s, s, e, e);
            push_row(&mut v, e, e, e, e);
            proof {
                assert(v@ =~= shape_s());
            }
        },
        4 => {
            push_row(&mut v, e, s, s, e);
            push_row(&mut v, e, s, e, e);
            push_row(&mut v, e, s, e, e);
            push_row(&mut v, e, e, e, e);
            proof {
                assert(v@ =~= shape_j());
            }
        },
        5 => {
            push_row(&mut v, e, e, e, e);
            push_row(&mut v, s, s, s, e);
            push_row(&mut v, e, s, e, e);
            push_row(&mut v, e, e, e, e);
            proof {
                assert(v@ =~= shape_t());
            }
        },
        _ => {
            push_row(&mut v, e, e, e, e);
            push_row(&mut v, e, s, s, e);
            push_row(&mut v, e, e, s, s);
            push_row(&mut v, e, e, e, e);
            proof {
                assert(x % 7 == 6);
                assert(v@ =~= shape_z());
            }
        },
    }
    proof {
        assert(v@[5] == Cell::Solid || v@[1] == Cell::Solid || v@[4] == Cell::Solid);
    }
    v
}

/// A shape bound to an orientation count. The count is kept as a signed
/// integer in -3..=3 and is not eagerly normalized: counts congruent
/// modulo 4 materialize the same matrix.
#[derive(Clone, Debug)]
pub struct TetrominoState {
    pub data: Vec<Cell>,
    pub rotation: i8,
}

impl TetrominoState {
    /// A piece state is well formed when its base matrix holds 16 cells,
    /// at least one of them solid, and its orientation count is one of the
    /// seven values left/right turns can produce.
    pub open spec fn wf(self) -> bool {
        &&& self.data@.len() == 16
        &&& -3 <= self.rotation <= 3
        &&& has_solid(self.data@)
    }

    /// The normalized rotation index in 0..4 that the stored count reduces
    /// to modulo 4.
    pub open spec fn rot(self) -> int {
        if self.rotation < 0 {
            self.rotation + 4
        } else {
            self.rotation as int
        }
    }

    /// A new piece state from the host's two draws: a raw shape draw,
    /// reduced modulo 7 onto the catalog, and an orientation count in 0..4.
    pub fn new(shape_draw: u8, rotation_draw: i8) -> (t: TetrominoState)
        requires
            0 <= rotation_draw < 4,
        ensures
            t.wf(),
            t.data@ == base_shape((shape_draw % 7) as int),
            t.rotation == rotation_draw,
            t.rot() == rotation_draw as int,
    {
        TetrominoState { data: tetromino_from_draw(shape_draw), rotation: rotation_draw }
    }

    /// One quarter turn to the left: the count is incremented and reduced
    /// by a remainder that keeps its sign, so it stays in -3..=3.
    pub fn rotate_left(&mut self)
        requires
            old(self).wf(),
        ensures
            final(self).wf(),
            final(self).data == old(self).data,
            final(self).rotation as int == (if old(self).rotation == 3 {
                0int
            } else {
                old(self).rotation + 1
            }),
            final(self).rot() == next_rot(old(self).rot()),
    {
        if self.rotation == 3 {
            self.rotation = 0;
        } else {
            self.rotation = self.rotation + 1;
        }
    }

    /// One quarter turn to the right: the count is decremented and reduced
    /// by a remainder that keeps its sign, so it stays in -3..=3.
    pub fn rotate_right(&mut self)
        requires
            old(self).wf(),
        ensures
            final(self).wf(),
            final(self).data == old(self).data,
            final(self).rotation as int == (if old(self).rotation == -3 {
                0int
            } else {
                old(self).rotation - 1
            }),
            final(self).rot() == prev_rot(old(self).rot()),
    {
        if self.rotation == -3 {
            self.rotation = 0;
        } else {
            self.rotation = self.rotation - 1;
        }
    }

    /// Materialize the occupancy matrix for the shape at the current
    /// orientation, recomputed on demand. Counts congruent modulo 4 go
    /// through the same arm, so they materialize the same matrix.
    pub fn get_matrix(&self) -> (m: CellMatrix)
        requires
            self.wf(),
        ensures
            m.wf(),
            m.data@ == rotated_spec(self.data@, self.rot()),
    {
        let mut data_vec: Vec<Cell> = self.data.clone();
        proof {
            assert(data_vec@ =~= self.data@);
        }
        match self.rotation {
            0 => {},
            1 | -3 => {
                // rotate right
                transpose_matrix(&mut data_vec);
                invert_cols(&mut data_vec);
            },
            2 | -2 => {
                // flip vertically
                invert_cols(&mut data_vec);
                invert_rows(&mut data_vec);
            },
            3 | -1 => {
                // rotate left
                transpose_matrix(&mut data_vec);
                invert_rows(&mut data_vec);
            },
            _ => {
                assert(false);
            },
        }
        CellMatrix { data: data_vec }
    }
}

/// An active piece: a piece state anchored at a grid position.
#[derive(Clone, Debug)]
pub struct FallingTetromino {
    pub tetromino: TetrominoState,
    pub position: Point,
}

impl FallingTetromino {
    pub open spec fn wf(self) -> bool {
        self.tetromino.wf()
    }

    /// The matrix the piece currently occupies, as a sequence.
    pub open spec fn matrix(self) -> Seq<Cell> {
        rotated_spec(self.tetromino.data@, self.tetromino.rot())
    }

    /// Spawn a new piece from the host's two draws, anchored at the fixed
    /// spawn position at the top of the hidden region.
    pub fn new(shape_draw: u8, rotation_draw: i8) -> (t: FallingTetromino)
        requires
            0 <= rotation_draw < 4,
        ensures
            t.wf(),
            t.tetromino.data@ == base_shape((shape_draw % 7) as int),
            t.tetromino.rotation == rotation_draw,
            t.tetromino.rot() == rotation_draw as int,
            t.position == (Point { x: SPAWN_X, y: SPAWN_Y }),
    {
        FallingTetromino {
            tetromino: TetrominoState::new(shape_draw, rotation_draw),
            position: Point { x: SPAWN_X, y: SPAWN_Y },
        }
    }

    pub fn rotate_left(&mut self)
        requires
            old(self).wf(),
        ensures
            final(self).wf(),
            final(self).tetromino.data == old(self).tetromino.data,
            final(self).tetromino.rot() == next_rot(old(self).tetromino.rot()),
            final(self).tetromino.rotation as int == (if old(self).tetromino.rotation == 3 {
                0int
            } else {
                old(self).tetromino.rotation + 1
            }),
            final(self).position == old(self).position,
    {
        self.tetromino.rotate_left()
    }

    pub fn rotate_right(&mut self)
        requires
            old(self).wf(),
        ensures
            final(self).wf(),
            final(self).tetromino.data == old(self).tetromino.data,
            final(self).tetromino.rot() == prev_rot(old(self).tetromino.rot()),
            final(self).tetromino.rotation as int == (if old(self).tetromino.rotation == -3 {
                0int
            } else {
                old(self).tetromino.rotation - 1
            }),
            final(self).position == old(self).position,
    {
        self.tetromino.rotate_right()
    }

    /// The piece's current occupancy matrix.
    pub fn get_matrix(&self) -> (m: CellMatrix)
        requires
            self.wf(),
        ensures
            m.wf(),
            m.data@ == self.matrix(),
    {
        self.tetromino.get_matrix()
    }
}

} // verus!
