//! The quarter-turn transform shared by all seven shapes: a 4x4 matrix is
//! rotated by composing a transpose with a mirror of its rows or columns.
//! All shapes use this single generic transform; there is no per-shape
//! offset or kick table.

use vstd::prelude::*;

use crate::cell::{has_solid, Cell};

verus! {

/// Swap across the main diagonal: cell (i, j) of the result is cell (j, i)
/// of the source.
pub open spec fn transpose_spec(s: Seq<Cell>) -> Seq<Cell> {
    Seq::new(16, |k: int| s[(k % 4) * 4 + k / 4])
}

/// Mirror the columns within each row: cell (i, j) of the result is cell
/// (i, 3 - j) of the source.
pub open spec fn invert_rows_spec(s: Seq<Cell>) -> Seq<Cell> {
    Seq::new(16, |k: int| s[(k / 4) * 4 + 3 - k % 4])
}

/// Mirror the rows within each column: cell (i, j) of the result is cell
/// (3 - i, j) of the source.
pub open spec fn invert_cols_spec(s: Seq<Cell>) -> Seq<Cell> {
    Seq::new(16, |k: int| s[(3 - k / 4) * 4 + k % 4])
}

/// The matrix a shape materializes to after `r` quarter turns to the left,
/// for a normalized rotation index `r` in 0..4.
pub open spec fn rotated_spec(s: Seq<Cell>, r: int) -> Seq<Cell> {
    if r == 1 {
        invert_cols_spec(transpose_spec(s))
    } else if r == 2 {
        invert_rows_spec(invert_cols_spec(s))
    } else if r == 3 {
        invert_rows_spec(transpose_spec(s))
    } else {
        s
    }
}

/// The rotation index reached by one more left turn.
pub open spec fn next_rot(r: int) -> int {
    (r + 1) % 4
}

/// The rotation index reached by one more right turn.
pub open spec fn prev_rot(r: int) -> int {
    (r + 3) % 4
}

/// Rotation closure: four successive left turns return any orientation to
/// itself, so the materialized matrix is unchanged, whatever the shape.
pub proof fn lemma_rotate_left_four(s: Seq<Cell>, r: int)
    requires
        0 <= r < 4,
    ensures
        rotated_spec(s, next_rot(next_rot(next_rot(next_rot(r))))) == rotated_spec(s, r),
{
    assert(next_rot(next_rot(next_rot(next_rot(r)))) == r);
}

/// Rotation inverse: a left turn followed immediately by a right turn
/// restores the orientation, so the materialized matrix is unchanged.
pub proof fn lemma_rotate_left_then_right(s: Seq<Cell>, r: int)
    requires
        0 <= r < 4,
    ensures
        rotated_spec(s, prev_rot(next_rot(r))) == rotated_spec(s, r),
{
    assert(prev_rot(next_rot(r)) == r);
}

/// Rotation inverse, the other way round: a right turn followed by a left
/// turn restores the orientation.
pub proof fn lemma_rotate_right_then_left(s: Seq<Cell>, r: int)
    requires
        0 <= r < 4,
    ensures
        rotated_spec(s, next_rot(prev_rot(r))) == rotated_spec(s, r),
{
    assert(next_rot(prev_rot(r)) == r);
}

/// A rotation permutes the cells of a matrix, so a matrix with a solid cell
/// stays solid under every rotation.
pub proof fn lemma_rotated_has_solid(s: Seq<Cell>, r: int)
    requires
        s.len() == 16,
        0 <= r < 4,
        has_solid(s),
    ensures
        has_solid(rotated_spec(s, r)),
{
    let t = choose|t: int| 0 <= t < 16 && s[t] == Cell::Solid;
    if r == 1 {
        let k = 4 * (3 - t % 4) + t / 4;
        assert(rotated_spec(s, r)[k] == s[t]);
    } else if r == 2 {
        let k = 4 * (3 - t / 4) + (3 - t % 4);
        assert(rotated_spec(s, r)[k] == s[t]);
    } else if r == 3 {
        let k = 4 * (t % 4) + (3 - t / 4);
        assert(rotated_spec(s, r)[k] == s[t]);
    } else {
        assert(rotated_spec(s, r)[t] == s[t]);
    }
}

/// Rebuild a 16-cell matrix as its transpose.
pub fn transpose_matrix(m: &mut Vec<Cell>)
    requires
        old(m)@.len() == 16,
    ensures
        final(m)@ == transpose_spec(old(m)@),
{
    let mut out: Vec<Cell> = Vec::new();
    let mut k: usize = 0;
    while k < 16
        invariant
            m@ == old(m)@,
            m@.len() == 16,
            k <= 16,
            out@.len() == k,
            forall|i: int| 0 <= i < k ==> out@[i] == transpose_spec(m@)[i],
        decreases 16 - k,
    {
        out.push(m[(k % 4) * 4 + k / 4]);
        k += 1;
    }
    proof {
        assert(out@ =~= transpose_spec(m@));
    }
    *m = out;
}

/// Rebuild a 16-cell matrix with the columns of each row mirrored.
pub fn invert_rows(m: &mut Vec<Cell>)
    requires
        old(m)@.len() == 16,
    ensures
        final(m)@ == invert_rows_spec(old(m)@),
{
    let mut out: Vec<Cell> = Vec::new();
    let mut k: usize = 0;
    while k < 16
        invariant
            m@ == old(m)@,
            m@.len() == 16,
            k <= 16,
            out@.len() == k,
            forall|i: int| 0 <= i < k ==> out@[i] == invert_rows_spec(m@)[i],
        decreases 16 - k,
    {
        out.push(m[(k / 4) * 4 + 3 - k % 4]);
        k += 1;
    }
    proof {
        assert(out@ =~= invert_rows_spec(m@));
    }
    *m = out;
}

/// Rebuild a 16-cell matrix with the rows of each column mirrored.
pub fn invert_cols(m: &mut Vec<Cell>)
    requires
        old(m)@.len() == 16,
    ensures
        final(m)@ == invert_cols_spec(old(m)@),
{
    let mut out: Vec<Cell> = Vec::new();
    let mut k: usize = 0;
    while k < 16
        invariant
            m@ == old(m)@,
            m@.len() == 16,
            k <= 16,
            out@.len() == k,
            forall|i: int| 0 <= i < k ==> out@[i] == invert_cols_spec(m@)[i],
        decreases 16 - k,
    {
        out.push(m[(3 - k / 4) * 4 + k % 4]);
        k += 1;
    }
    proof {
        assert(out@ =~= invert_cols_spec(m@));
    }
    *m = out;
}

} // verus!
