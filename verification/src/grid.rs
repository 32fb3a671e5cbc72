//! Transposition of small square grids.
//!
//! A transpose moves values and computes nothing, so it is stated and
//! verified here once, for any component type; the matrix types lay their
//! rows into a grid, transpose it, and read the rows back.
use vstd::prelude::*;

verus! {

/// `t` holds `m` transposed: component `(i, j)` of one is component
/// `(j, i)` of the other.
pub open spec fn is_transpose<T, const N: usize>(m: [[T; N]; N], t: [[T; N]; N]) -> bool {
    forall|i: int, j: int| 0 <= i < N && 0 <= j < N ==> t[i][j] == m[j][i]
}

/// The transpose of a 2x2 grid of rows.
pub fn transpose2<T: Copy>(m: [[T; 2]; 2]) -> (t: [[T; 2]; 2])
    ensures
        is_transpose(m, t),
{
    let t = [[m[0][0], m[1][0]], [m[0][1], m[1][1]]];
    proof {
        lemma_transpose2_pointwise(m, t);
    }
    t
}

/// The transpose of a 3x3 grid of rows.
pub fn transpose3<T: Copy>(m: [[T; 3]; 3]) -> (t: [[T; 3]; 3])
    ensures
        is_transpose(m, t),
{
    let t = [
        [m[0][0], m[1][0], m[2][0]],
        [m[0][1], m[1][1], m[2][1]],
        [m[0][2], m[1][2], m[2][2]],
    ];
    proof {
        lemma_transpose3_pointwise(m, t);
    }
    t
}

/// The transpose of a 4x4 grid of rows.
pub fn transpose4<T: Copy>(m: [[T; 4]; 4]) -> (t: [[T; 4]; 4])
    ensures
        is_transpose(m, t),
{
    let t = [
        [m[0][0], m[1][0], m[2][0], m[3][0]],
        [m[0][1], m[1][1], m[2][1], m[3][1]],
        [m[0][2], m[1][2], m[2][2], m[3][2]],
        [m[0][3], m[1][3], m[2][3], m[3][3]],
    ];
    proof {
        lemma_transpose4_pointwise(m, t);
    }
    t
}

/// Transposing is an involution: a grid that is the transpose of the
/// transpose of `m` is `m` itself, component by component.
pub proof fn lemma_transpose_involution<T, const N: usize>(
    m: [[T; N]; N],
    t: [[T; N]; N],
    tt: [[T; N]; N],
)
    requires
        is_transpose(m, t),
        is_transpose(t, tt),
    ensures
        forall|i: int, j: int| 0 <= i < N && 0 <= j < N ==> tt[i][j] == m[i][j],
{
}

proof fn lemma_transpose2_pointwise<T>(m: [[T; 2]; 2], t: [[T; 2]; 2])
    requires
        t[0][0] == m[0][0] && t[0][1] == m[1][0],
        t[1][0] == m[0][1] && t[1][1] == m[1][1],
    ensures
        is_transpose(m, t),
{
    assert forall|i: int, j: int| 0 <= i < 2 && 0 <= j < 2 implies t[i][j] == m[j][i] by {
        assert(i == 0 || i == 1);
        assert(j == 0 || j == 1);
    }
}

proof fn lemma_transpose3_pointwise<T>(m: [[T; 3]; 3], t: [[T; 3]; 3])
    requires
        t[0][0] == m[0][0] && t[0][1] == m[1][0] && t[0][2] == m[2][0],
        t[1][0] == m[0][1] && t[1][1] == m[1][1] && t[1][2] == m[2][1],
        t[2][0] == m[0][2] && t[2][1] == m[1][2] && t[2][2] == m[2][2],
    ensures
        is_transpose(m, t),
{
    assert forall|i: int, j: int| 0 <= i < 3 && 0 <= j < 3 implies t[i][j] == m[j][i] by {
        assert(i == 0 || i == 1 || i == 2);
        assert(j == 0 || j == 1 || j == 2);
    }
}

proof fn lemma_transpose4_pointwise<T>(m: [[T; 4]; 4], t: [[T; 4]; 4])
    requires
        t[0][0] == m[0][0] && t[0][1] == m[1][0] && t[0][2] == m[2][0] && t[0][3] == m[3][0],
        t[1][0] == m[0][1] && t[1][1] == m[1][1] && t[1][2] == m[2][1] && t[1][3] == m[3][1],
        t[2][0] == m[0][2] && t[2][1] == m[1][2] && t[2][2] == m[2][2] && t[2][3] == m[3][2],
        t[3][0] == m[0][3] && t[3][1] == m[1][3] && t[3][2] == m[2][3] && t[3][3] == m[3][3],
    ensures
        is_transpose(m, t),
{
    assert forall|i: int, j: int| 0 <= i < 4 && 0 <= j < 4 implies t[i][j] == m[j][i] by {
        assert(i == 0 || i == 1 || i == 2 || i == 3);
        assert(j == 0 || j == 1 || j == 2 || j == 3);
    }
}

} // verus!
