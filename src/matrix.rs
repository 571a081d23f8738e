use vstd::prelude::*;

verus! {

/// A 4x4 matrix, row-major: `m[row][column]`.
pub type Matrix4<T> = [[T; 4]; 4];

/// The entry of `m` at `row`, `column`.
pub open spec fn entry<T>(m: Matrix4<T>, row: int, column: int) -> T {
    m@[row]@[column]
}

/// `t` holds the rows of `m` as its columns.
pub open spec fn is_transpose<T>(t: Matrix4<T>, m: Matrix4<T>) -> bool {
    forall|i: int, j: int| 0 <= i < 4 && 0 <= j < 4 ==> #[trigger] entry(t, i, j) == entry(m, j, i)
}

/// The matrix whose rows are the columns of `m`.
pub fn transpose<T: Copy>(m: &Matrix4<T>) -> (r: Matrix4<T>)
    ensures
        is_transpose(r, *m),
{
    let r = [
        [m[0][0], m[1][0], m[2][0], m[3][0]],
        [m[0][1], m[1][1], m[2][1], m[3][1]],
        [m[0][2], m[1][2], m[2][2], m[3][2]],
        [m[0][3], m[1][3], m[2][3], m[3][3]],
    ];
    assert forall|i: int, j: int| 0 <= i < 4 && 0 <= j < 4 implies #[trigger] entry(r, i, j)
        == entry(*m, j, i) by {
        assert(0 <= i < 4);
    }
    r
}

/// Transposing twice gives the matrix back.
pub proof fn lemma_transpose_involutive<T>(m: Matrix4<T>, t: Matrix4<T>, u: Matrix4<T>)
    requires
        is_transpose(t, m),
        is_transpose(u, t),
    ensures
        u == m,
{
    assert forall|i: int| 0 <= i < 4 implies u@[i] == m@[i] by {
        assert(u@[i]@ =~= m@[i]@) by {
            assert forall|j: int| 0 <= j < 4 implies u@[i]@[j] == m@[i]@[j] by {
                assert(entry(u, i, j) == entry(t, j, i));
                assert(entry(t, j, i) == entry(m, i, j));
            }
        }
    }
    assert(u@ =~= m@);
}

} // verus!
