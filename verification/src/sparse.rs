//! Sparse ingestion and densification structure. Coordinate-format entries
//! whose row or column falls outside the matrix are silently dropped — an
//! explicit design choice, not an error — and a merged entry set is
//! scattered into a row-major dense matrix, zero everywhere else. The
//! numeric merging of duplicate coordinates happens on the host's scalar
//! type; every structural step is verified here.

use vstd::prelude::*;

verus! {

/// A coordinate-format matrix entry. `V` is the host's scalar type.
pub struct SparseEntry<V> {
    /// Row of the addressed cell.
    pub row: usize,
    /// Column of the addressed cell.
    pub col: usize,
    /// Stored value; entries addressing the same cell are additive.
    pub value: V,
}

/// A sparse matrix in coordinate format, as the host supplies it.
pub struct SparseMatrixInput<V> {
    /// Number of matrix rows.
    pub rows: usize,
    /// Number of matrix columns.
    pub cols: usize,
    /// The stored entries, in no particular order.
    pub entries: Vec<SparseEntry<V>>,
}

/// Whether a coordinate pair addresses a cell of an `n`-by-`n` matrix.
pub open spec fn in_range(row: usize, col: usize, n: usize) -> bool {
    row < n && col < n
}

/// The indices, among the first `upto` entries, of those whose coordinates
/// are in range, in their original order.
pub open spec fn kept_indices(rows: Seq<usize>, cols: Seq<usize>, n: usize, upto: int) -> Seq<
    usize,
>
    decreases upto,
{
    if upto <= 0 {
        Seq::empty()
    } else if in_range(rows[upto - 1], cols[upto - 1], n) {
        kept_indices(rows, cols, n, upto - 1).push((upto - 1) as usize)
    } else {
        kept_indices(rows, cols, n, upto - 1)
    }
}

/// What it means for `s` to select exactly the in-range entries among the
/// first `upto`: every selected index is in range, the selection keeps the
/// original order without repetition, and no in-range entry is missed.
pub open spec fn selects_in_range(
    rows: Seq<usize>,
    cols: Seq<usize>,
    n: usize,
    upto: int,
    s: Seq<usize>,
) -> bool {
    &&& forall|t: int|
        0 <= t < s.len() ==> #[trigger] s[t] < upto && in_range(
            rows[s[t] as int],
            cols[s[t] as int],
            n,
        )
    &&& forall|t1: int, t2: int| 0 <= t1 < t2 < s.len() ==> s[t1] < s[t2]
    &&& forall|j: int|
        0 <= j < upto && in_range(#[trigger] rows[j], cols[j], n) ==> s.contains(j as usize)
}

/// Out-of-range entries are dropped and nothing else is: the kept selection
/// holds exactly the in-range entries, in order.
pub proof fn lemma_kept_indices_exact(rows: Seq<usize>, cols: Seq<usize>, n: usize, upto: int)
    requires
        rows.len() == cols.len(),
        rows.len() <= usize::MAX,
        0 <= upto <= rows.len(),
    ensures
        selects_in_range(rows, cols, n, upto, kept_indices(rows, cols, n, upto)),
    decreases upto,
{
    if upto > 0 {
        lemma_kept_indices_exact(rows, cols, n, upto - 1);
        let prev = kept_indices(rows, cols, n, upto - 1);
        let cur = kept_indices(rows, cols, n, upto);
        if in_range(rows[upto - 1], cols[upto - 1], n) {
            assert(cur == prev.push((upto - 1) as usize));
        } else {
            assert(cur == prev);
        }
        assert forall|t: int|
            0 <= t < cur.len() implies #[trigger] cur[t] < upto && in_range(
            rows[cur[t] as int],
            cols[cur[t] as int],
            n,
        ) by {
            if t < prev.len() {
                assert(cur[t] == prev[t]);
            }
        }
        assert forall|t1: int, t2: int| 0 <= t1 < t2 < cur.len() implies cur[t1] < cur[t2] by {
            if t2 < prev.len() {
                assert(prev[t1] < prev[t2]);
            } else if t2 == prev.len() && cur.len() == prev.len() + 1 {
                assert(prev[t1] < upto - 1);
            }
        }
        assert forall|j: int|
            0 <= j < upto && in_range(#[trigger] rows[j], cols[j], n) implies cur.contains(
            j as usize,
        ) by {
            if j < upto - 1 {
                assert(prev.contains(j as usize));
                let t = choose|t: int| 0 <= t < prev.len() && prev[t] == j as usize;
                assert(cur[t] == j as usize);
            } else {
                assert(cur[cur.len() - 1] == (upto - 1) as usize);
            }
        }
    }
}

/// Selects the entries that fit an `n`-by-`n` matrix: the result holds the
/// positions of exactly those entries whose row and column are both in
/// `[0, n)`, in their original order. Out-of-range entries are skipped
/// without error.
pub fn filter_in_range(rows: &Vec<usize>, cols: &Vec<usize>, n: usize) -> (kept: Vec<usize>)
    requires
        rows@.len() == cols@.len(),
    ensures
        kept@ == kept_indices(rows@, cols@, n, rows@.len() as int),
        selects_in_range(rows@, cols@, n, rows@.len() as int, kept@),
{
    let mut kept: Vec<usize> = Vec::new();
    let mut k: usize = 0;
    while k < rows.len()
        invariant
            rows@.len() == cols@.len(),
            k <= rows@.len(),
            kept@ == kept_indices(rows@, cols@, n, k as int),
        decreases rows@.len() - k,
    {
        if rows[k] < n && cols[k] < n {
            kept.push(k);
        }
        k = k + 1;
    }
    proof {
        lemma_kept_indices_exact(rows@, cols@, n, rows@.len() as int);
    }
    kept
}

/// Row-major cell addressed by a coordinate pair.
pub open spec fn cell_of(row: usize, col: usize, n: usize) -> int {
    (row as int) * (n as int) + (col as int)
}

/// An in-range coordinate pair addresses a cell of the flat matrix.
pub proof fn lemma_cell_in_bounds(row: usize, col: usize, n: usize)
    requires
        row < n,
        col < n,
    ensures
        0 <= cell_of(row, col, n) < (n as int) * (n as int),
{
    assert((row as int) * (n as int) + (col as int) < (n as int) * (n as int))
        by (nonlinear_arith)
        requires
            row < n,
            col < n,
    ;
}

/// Distinct in-range coordinate pairs address distinct cells.
pub proof fn lemma_cell_injective(r1: usize, c1: usize, r2: usize, c2: usize, n: usize)
    requires
        c1 < n,
        c2 < n,
        cell_of(r1, c1, n) == cell_of(r2, c2, n),
    ensures
        r1 == r2,
        c1 == c2,
{
    assert(r1 == r2 && c1 == c2) by (nonlinear_arith)
        requires
            c1 < n,
            c2 < n,
            (r1 as int) * (n as int) + (c1 as int) == (r2 as int) * (n as int) + (c2 as int),
    ;
}

/// No entry among the first `upto` addresses cell `c`.
pub open spec fn cell_unused_upto(
    rows: Seq<usize>,
    cols: Seq<usize>,
    n: usize,
    c: int,
    upto: int,
) -> bool {
    forall|k: int| 0 <= k < upto ==> cell_of(#[trigger] rows[k], cols[k], n) != c
}

/// No entry at all addresses cell `c`.
pub open spec fn cell_unused(rows: Seq<usize>, cols: Seq<usize>, n: usize, c: int) -> bool {
    cell_unused_upto(rows, cols, n, c, rows.len() as int)
}

/// Scatters a merged entry set into a row-major `n`-by-`n` dense matrix:
/// every stored value lands in its cell, and every other cell holds `zero`.
/// The entries must already be merged — no two may address the same cell —
/// as a compressed sparse row matrix guarantees of its stored entries.
pub fn densify<V: Copy>(
    rows: &Vec<usize>,
    cols: &Vec<usize>,
    values: &Vec<V>,
    zero: V,
    n: usize,
) -> (dense: Vec<V>)
    requires
        rows@.len() == cols@.len(),
        rows@.len() == values@.len(),
        forall|k: int| 0 <= k < rows@.len() ==> in_range(#[trigger] rows@[k], cols@[k], n),
        forall|k1: int, k2: int|
            0 <= k1 < k2 < rows@.len() ==> !(#[trigger] rows@[k1] == #[trigger] rows@[k2]
                && cols@[k1] == cols@[k2]),
        n * n <= usize::MAX,
    ensures
        dense@.len() == n * n,
        forall|k: int|
            0 <= k < rows@.len() ==> dense@[cell_of(#[trigger] rows@[k], cols@[k], n)]
                == values@[k],
        forall|c: int| 0 <= c < n * n && cell_unused(rows@, cols@, n, c) ==> dense@[c] == zero,
{
    let nn: usize = n * n;
    let mut dense: Vec<V> = Vec::new();
    let mut i: usize = 0;
    while i < nn
        invariant
            dense@.len() == i as int,
            i <= nn,
            forall|c: int| 0 <= c < i ==> dense@[c] == zero,
        decreases nn - i,
    {
        dense.push(zero);
        i = i + 1;
    }
    let mut k: usize = 0;
    while k < rows.len()
        invariant
            rows@.len() == cols@.len(),
            rows@.len() == values@.len(),
            forall|k2: int| 0 <= k2 < rows@.len() ==> in_range(#[trigger] rows@[k2], cols@[k2], n),
            forall|k1: int, k2: int|
                0 <= k1 < k2 < rows@.len() ==> !(#[trigger] rows@[k1] == #[trigger] rows@[k2]
                    && cols@[k1] == cols@[k2]),
            nn == n * n,
            dense@.len() == nn,
            k <= rows@.len(),
            forall|k2: int|
                0 <= k2 < k ==> dense@[cell_of(#[trigger] rows@[k2], cols@[k2], n)] == values@[k2],
            forall|c: int|
                0 <= c < nn && cell_unused_upto(rows@, cols@, n, c, k as int) ==> dense@[c] == zero,
        decreases rows@.len() - k,
    {
        let r = rows[k];
        let c = cols[k];
        proof {
            lemma_cell_in_bounds(r, c, n);
        }
        let cell: usize = r * n + c;
        let ghost prior = dense@;
        dense.set(cell, values[k]);
        proof {
            assert forall|k2: int|
                0 <= k2 < k implies dense@[cell_of(#[trigger] rows@[k2], cols@[k2], n)]
                == values@[k2] by {
                lemma_cell_in_bounds(rows@[k2], cols@[k2], n);
                if cell_of(rows@[k2], cols@[k2], n) == cell_of(r, c, n) {
                    lemma_cell_injective(rows@[k2], cols@[k2], r, c, n);
                    assert(false);
                }
                assert(dense@[cell_of(rows@[k2], cols@[k2], n)] == prior[cell_of(
                    rows@[k2],
                    cols@[k2],
                    n,
                )]);
            }
            assert(dense@[cell_of(rows@[k as int], cols@[k as int], n)] == values@[k as int]);
            assert forall|c2: int|
                0 <= c2 < nn && cell_unused_upto(rows@, cols@, n, c2, k + 1) implies dense@[c2]
                == zero by {
                assert(cell_of(rows@[k as int], cols@[k as int], n) != c2);
                assert(cell_unused_upto(rows@, cols@, n, c2, k as int));
                assert(prior[c2] == zero);
            }
        }
        k = k + 1;
    }
    dense
}

/// Well-formed compressed sparse row structure for an `n`-by-`n` matrix:
/// the row-pointer array starts at zero, is monotonically non-decreasing,
/// has length `n + 1` and ends at the entry count; every stored column is in
/// range; and the columns of each row strictly increase (duplicates were
/// merged when the structure was built).
pub open spec fn csr_wf(row_ptr: Seq<usize>, col_idx: Seq<usize>, n: usize) -> bool {
    &&& row_ptr.len() == n + 1
    &&& row_ptr[0] == 0
    &&& forall|i: int| 0 <= i < n ==> #[trigger] row_ptr[i] <= row_ptr[i + 1]
    &&& row_ptr[n as int] == col_idx.len()
    &&& forall|k: int| 0 <= k < col_idx.len() ==> #[trigger] col_idx[k] < n
    &&& forall|i: int, k: int|
        #![trigger row_ptr[i], col_idx[k]]
        0 <= i < n && row_ptr[i] <= k && k + 1 < row_ptr[i + 1] ==> col_idx[k] < col_idx[k + 1]
}

/// A non-decreasing row-pointer array is non-decreasing across any span.
pub proof fn lemma_row_ptr_monotone(row_ptr: Seq<usize>, i: int, j: int)
    requires
        forall|t: int| 0 <= t < row_ptr.len() - 1 ==> #[trigger] row_ptr[t] <= row_ptr[t + 1],
        0 <= i <= j < row_ptr.len(),
    ensures
        row_ptr[i] <= row_ptr[j],
    decreases j - i,
{
    if i < j {
        lemma_row_ptr_monotone(row_ptr, i, j - 1);
    }
}

/// Within one row of a well-formed structure the stored columns strictly
/// increase, at any distance.
proof fn lemma_cols_increase_within_row(
    row_ptr: Seq<usize>,
    col_idx: Seq<usize>,
    n: usize,
    i: int,
    k1: int,
    k2: int,
)
    requires
        csr_wf(row_ptr, col_idx, n),
        0 <= i < n,
        row_ptr[i] <= k1 < k2 < row_ptr[i + 1],
    ensures
        col_idx[k1] < col_idx[k2],
    decreases k2 - k1,
{
    if k1 + 1 < k2 {
        lemma_cols_increase_within_row(row_ptr, col_idx, n, i, k1, k2 - 1);
    }
}

/// Expands a row-pointer array into one row index per stored entry: entry
/// `k` belongs to the unique row whose pointer span contains `k`.
pub fn expand_rows(row_ptr: &Vec<usize>, n: usize) -> (rows: Vec<usize>)
    requires
        row_ptr@.len() == n + 1,
        row_ptr@[0] == 0,
        forall|i: int| 0 <= i < n ==> #[trigger] row_ptr@[i] <= row_ptr@[i + 1],
    ensures
        rows@.len() == row_ptr@[n as int],
        forall|k: int|
            0 <= k < rows@.len() ==> #[trigger] rows@[k] < n && row_ptr@[rows@[k] as int] <= k
                < row_ptr@[rows@[k] as int + 1],
{
    let mut rows: Vec<usize> = Vec::new();
    let mut i: usize = 0;
    while i < n
        invariant
            row_ptr@.len() == n + 1,
            row_ptr@[0] == 0,
            forall|t: int| 0 <= t < n ==> #[trigger] row_ptr@[t] <= row_ptr@[t + 1],
            i <= n,
            rows@.len() == row_ptr@[i as int],
            forall|k: int|
                0 <= k < rows@.len() ==> #[trigger] rows@[k] < n && row_ptr@[rows@[k] as int] <= k
                    < row_ptr@[rows@[k] as int + 1],
        decreases n - i,
    {
        let hi = row_ptr[i + 1];
        let mut k: usize = rows.len();
        while k < hi
            invariant
                row_ptr@.len() == n + 1,
                i < n,
                hi == row_ptr@[i as int + 1],
                row_ptr@[i as int] <= k <= hi,
                rows@.len() == k as int,
                forall|k2: int|
                    0 <= k2 < rows@.len() ==> #[trigger] rows@[k2] < n && row_ptr@[rows@[k2] as int]
                        <= k2 < row_ptr@[rows@[k2] as int + 1],
            decreases hi - k,
        {
            rows.push(i);
            k = k + 1;
        }
        i = i + 1;
    }
    rows
}

/// The expanded entries of a well-formed structure address pairwise
/// distinct cells: distinct rows trivially, and within a row the strictly
/// increasing columns.
pub proof fn lemma_csr_entries_distinct(
    row_ptr: Seq<usize>,
    col_idx: Seq<usize>,
    n: usize,
    rows: Seq<usize>,
)
    requires
        csr_wf(row_ptr, col_idx, n),
        rows.len() == col_idx.len(),
        forall|k: int|
            0 <= k < rows.len() ==> #[trigger] rows[k] < n && row_ptr[rows[k] as int] <= k
                < row_ptr[rows[k] as int + 1],
    ensures
        forall|k1: int, k2: int|
            0 <= k1 < k2 < rows.len() ==> !(#[trigger] rows[k1] == #[trigger] rows[k2]
                && col_idx[k1] == col_idx[k2]),
{
    assert forall|k1: int, k2: int|
        0 <= k1 < k2 < rows.len() implies !(#[trigger] rows[k1] == #[trigger] rows[k2]
        && col_idx[k1] == col_idx[k2]) by {
        if rows[k1] == rows[k2] {
            lemma_cols_increase_within_row(row_ptr, col_idx, n, rows[k1] as int, k1, k2);
        }
    }
}

/// Some stored entry of the structure addresses cell `c`.
pub open spec fn csr_cell_used(
    row_ptr: Seq<usize>,
    col_idx: Seq<usize>,
    n: usize,
    c: int,
) -> bool {
    exists|i: usize, k: int|
        i < n && row_ptr[i as int] <= k < row_ptr[i as int + 1] && 0 <= k < col_idx.len()
            && cell_of(i, col_idx[k], n) == c
}

/// Converts a well-formed compressed sparse row matrix to a dense row-major
/// matrix: every stored value lands in the cell its row span and column
/// address, and every other cell holds `zero`.
pub fn densify_csr<V: Copy>(
    row_ptr: &Vec<usize>,
    col_idx: &Vec<usize>,
    values: &Vec<V>,
    zero: V,
    n: usize,
) -> (dense: Vec<V>)
    requires
        csr_wf(row_ptr@, col_idx@, n),
        values@.len() == col_idx@.len(),
        n * n <= usize::MAX,
    ensures
        dense@.len() == n * n,
        forall|i: usize, k: int|
            #![trigger row_ptr@[i as int], col_idx@[k]]
            i < n && row_ptr@[i as int] <= k < row_ptr@[i as int + 1] ==> dense@[cell_of(
                i,
                col_idx@[k],
                n,
            )] == values@[k],
        forall|c: int|
            0 <= c < n * n && !csr_cell_used(row_ptr@, col_idx@, n, c) ==> dense@[c] == zero,
{
    let rows = expand_rows(row_ptr, n);
    proof {
        lemma_csr_entries_distinct(row_ptr@, col_idx@, n, rows@);
    }
    let dense = densify(&rows, col_idx, values, zero, n);
    proof {
        assert forall|i: usize, k: int|
            #![trigger row_ptr@[i as int], col_idx@[k]]
            i < n && row_ptr@[i as int] <= k < row_ptr@[i as int + 1] implies dense@[cell_of(
            i,
            col_idx@[k],
            n,
        )] == values@[k] by {
            lemma_row_ptr_monotone(row_ptr@, i as int + 1, n as int);
            let r = rows@[k];
            if (r as int) < (i as int) {
                lemma_row_ptr_monotone(row_ptr@, r as int + 1, i as int);
                assert(false);
            }
            if (i as int) < (r as int) {
                lemma_row_ptr_monotone(row_ptr@, i as int + 1, r as int);
                assert(false);
            }
        }
        assert forall|c: int|
            0 <= c < n * n && !csr_cell_used(row_ptr@, col_idx@, n, c) implies dense@[c]
            == zero by {
            assert forall|k: int|
                0 <= k < rows@.len() implies cell_of(
                #[trigger] rows@[k],
                col_idx@[k],
                n,
            ) != c by {
                if cell_of(rows@[k], col_idx@[k], n) == c {
                    assert(rows@[k] < n && row_ptr@[rows@[k] as int] <= k < row_ptr@[rows@[k] as int
                        + 1] && 0 <= k < col_idx@.len() && cell_of(rows@[k], col_idx@[k], n) == c);
                    assert(csr_cell_used(row_ptr@, col_idx@, n, c));
                }
            }
            assert(cell_unused(rows@, col_idx@, n, c));
        }
    }
    dense
}

/// Checks at run time that a pair of index arrays is a well-formed
/// compressed sparse row structure, exactly as `densify_csr` requires.
pub fn csr_structure_ok(row_ptr: &Vec<usize>, col_idx: &Vec<usize>, n: usize) -> (ok: bool)
    ensures
        ok <==> csr_wf(row_ptr@, col_idx@, n),
{
    if row_ptr.len() == 0 || row_ptr.len() - 1 != n {
        return false;
    }
    if row_ptr[0] != 0 {
        return false;
    }
    let mut i: usize = 0;
    while i < n
        invariant
            row_ptr@.len() == n + 1,
            i <= n,
            forall|t: int| 0 <= t < i ==> #[trigger] row_ptr@[t] <= row_ptr@[t + 1],
        decreases n - i,
    {
        if row_ptr[i] > row_ptr[i + 1] {
            return false;
        }
        i = i + 1;
    }
    if row_ptr[n] != col_idx.len() {
        return false;
    }
    let mut k: usize = 0;
    while k < col_idx.len()
        invariant
            k <= col_idx@.len(),
            forall|t: int| 0 <= t < k ==> #[trigger] col_idx@[t] < n,
        decreases col_idx@.len() - k,
    {
        if col_idx[k] >= n {
            return false;
        }
        k = k + 1;
    }
    let mut i: usize = 0;
    while i < n
        invariant
            row_ptr@.len() == n + 1,
            row_ptr@[n as int] == col_idx@.len(),
            forall|t: int| 0 <= t < n ==> #[trigger] row_ptr@[t] <= row_ptr@[t + 1],
            i <= n,
            forall|t: int, k2: int|
                #![trigger row_ptr@[t], col_idx@[k2]]
                0 <= t < i && row_ptr@[t] <= k2 && k2 + 1 < row_ptr@[t + 1] ==> col_idx@[k2]
                    < col_idx@[k2 + 1],
        decreases n - i,
    {
        let lo = row_ptr[i];
        let hi = row_ptr[i + 1];
        proof {
            lemma_row_ptr_monotone(row_ptr@, i as int + 1, n as int);
        }
        let mut k: usize = lo;
        while k < hi
            invariant
                row_ptr@.len() == n + 1,
                i < n,
                lo == row_ptr@[i as int],
                hi == row_ptr@[i as int + 1],
                hi <= col_idx@.len(),
                lo <= k <= hi,
                forall|k2: int|
                    lo <= k2 && k2 + 1 < hi && k2 + 1 <= k ==> #[trigger] col_idx@[k2]
                        < col_idx@[k2 + 1],
            decreases hi - k,
        {
            if k + 1 < hi {
                if col_idx[k] >= col_idx[k + 1] {
                    return false;
                }
            }
            k = k + 1;
        }
        i = i + 1;
    }
    true
}

/// A matrix densified from an empty entry set is zero in every cell.
pub proof fn lemma_densify_empty<V>(
    rows: Seq<usize>,
    cols: Seq<usize>,
    n: usize,
    dense: Seq<V>,
    zero: V,
)
    requires
        rows.len() == 0,
        dense.len() == n * n,
        forall|c: int| 0 <= c < n * n && cell_unused(rows, cols, n, c) ==> dense[c] == zero,
    ensures
        forall|c: int| 0 <= c < n * n ==> dense[c] == zero,
{
    assert forall|c: int| 0 <= c < n * n implies dense[c] == zero by {
        assert(cell_unused(rows, cols, n, c));
    }
}

/// Checks at run time that an entry set can be densified: every coordinate
/// pair must be in range and no two entries may address the same cell. This
/// is exactly what `densify` requires of its entries.
pub fn entries_densifiable(rows: &Vec<usize>, cols: &Vec<usize>, n: usize) -> (ok: bool)
    requires
        rows@.len() == cols@.len(),
    ensures
        ok <==> ((forall|k: int|
            0 <= k < rows@.len() ==> in_range(#[trigger] rows@[k], cols@[k], n)) && (forall|
            k1: int,
            k2: int,
        |
            0 <= k1 < k2 < rows@.len() ==> !(#[trigger] rows@[k1] == #[trigger] rows@[k2]
                && cols@[k1] == cols@[k2]))),
{
    let m = rows.len();
    let mut k: usize = 0;
    while k < m
        invariant
            rows@.len() == cols@.len(),
            m == rows@.len(),
            k <= m,
            forall|k2: int| 0 <= k2 < k ==> in_range(#[trigger] rows@[k2], cols@[k2], n),
        decreases m - k,
    {
        if rows[k] >= n || cols[k] >= n {
            return false;
        }
        k = k + 1;
    }
    let mut k1: usize = 0;
    while k1 < m
        invariant
            rows@.len() == cols@.len(),
            m == rows@.len(),
            k1 <= m,
            forall|a: int, b: int|
                0 <= a < b < m && a < k1 ==> !(#[trigger] rows@[a] == #[trigger] rows@[b]
                    && cols@[a] == cols@[b]),
        decreases m - k1,
    {
        let mut k2: usize = k1 + 1;
        while k2 < m
            invariant
                rows@.len() == cols@.len(),
                m == rows@.len(),
                k1 < k2,
                k2 <= m,
                k1 < m,
                forall|b: int|
                    k1 < b < k2 ==> !(rows@[k1 as int] == #[trigger] rows@[b] && cols@[k1 as int]
                        == cols@[b]),
            decreases m - k2,
        {
            if rows[k1] == rows[k2] && cols[k1] == cols[k2] {
                return false;
            }
            k2 = k2 + 1;
        }
        k1 = k1 + 1;
    }
    true
}

} // verus!
