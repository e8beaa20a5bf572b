//! Fixed-point matrix algebra on 6x6 state matrices and 6-vectors,
//! stored row-major in `Vec<i64>`.
//!
//! A matrix entry represents a real coefficient in thousandths, so the
//! product of two matrices divides each accumulated dot product by the
//! scale once. All results are saturated into `[-LIM, LIM]`.

use vstd::prelude::*;

use crate::fixed::{FP, LIM, descale, descale_wide, mul_wide, sat, sat_narrow, tdiv, div_wide};

verus! {

/// Well-formed 6x6 matrix: 36 saturated entries, row-major.
pub open spec fn mat_wf(m: Seq<i64>) -> bool {
    m.len() == 36 && forall|k: int| 0 <= k < 36 ==> -LIM <= #[trigger] m[k] <= LIM
}

/// Well-formed 6-vector of saturated entries.
pub open spec fn vec6_wf(s: Seq<i64>) -> bool {
    s.len() == 6 && forall|k: int| 0 <= k < 6 ==> -LIM <= #[trigger] s[k] <= LIM
}

/// Double-scale dot product of row `i` of `a` with column `j` of `b`.
pub open spec fn dot_rc(a: Seq<i64>, b: Seq<i64>, i: int, j: int) -> int {
    a[6 * i] * b[j] + a[6 * i + 1] * b[6 + j] + a[6 * i + 2] * b[12 + j]
        + a[6 * i + 3] * b[18 + j] + a[6 * i + 4] * b[24 + j] + a[6 * i + 5] * b[30 + j]
}

/// Entry (i, j) of the fixed-point matrix product.
pub open spec fn mm_entry(a: Seq<i64>, b: Seq<i64>, i: int, j: int) -> int {
    descale(dot_rc(a, b, i, j))
}

/// The fixed-point matrix product.
pub open spec fn mm_mat(a: Seq<i64>, b: Seq<i64>) -> Seq<i64> {
    Seq::new(36, |k: int| mm_entry(a, b, k / 6, k % 6) as i64)
}

/// The transpose.
pub open spec fn mt_mat(a: Seq<i64>) -> Seq<i64> {
    Seq::new(36, |k: int| a[6 * (k % 6) + k / 6])
}

/// Entrywise saturating sum.
pub open spec fn ma_mat(a: Seq<i64>, b: Seq<i64>) -> Seq<i64> {
    Seq::new(36, |k: int| sat(a[k] + b[k]) as i64)
}

/// Diagonal matrix with `v` on the diagonal.
pub open spec fn diag36(v: i64) -> Seq<i64> {
    Seq::new(36, |k: int| if k / 6 == k % 6 { v } else { 0i64 })
}

/// Entry (i, j) of the constant-acceleration transition matrix for an
/// elapsed time of `dt` milliseconds: position rows gain `dt` toward the
/// velocity columns and `dt^2 / 2` (rescaled) toward the acceleration
/// columns; velocity rows gain `dt` toward the acceleration columns.
pub open spec fn trans_entry(dt: int, i: int, j: int) -> int {
    let dtc = sat(dt);
    if j == i {
        FP as int
    } else if i < 4 && j == i + 2 {
        dtc
    } else if i < 2 && j == i + 4 {
        sat(tdiv(dtc * dtc, 2 * (FP as int)))
    } else {
        0
    }
}

/// The transition matrix for an elapsed time of `dt` milliseconds.
pub open spec fn trans_mat(dt: int) -> Seq<i64> {
    Seq::new(36, |k: int| trans_entry(dt, k / 6, k % 6) as i64)
}

/// Entry `i` of the fixed-point matrix-vector product.
pub open spec fn mv_entry(a: Seq<i64>, s: Seq<i64>, i: int) -> int {
    descale(
        a[6 * i] * s[0] + a[6 * i + 1] * s[1] + a[6 * i + 2] * s[2] + a[6 * i + 3] * s[3]
            + a[6 * i + 4] * s[4] + a[6 * i + 5] * s[5],
    )
}

/// The fixed-point matrix-vector product.
pub open spec fn mv_vec(a: Seq<i64>, s: Seq<i64>) -> Seq<i64> {
    Seq::new(6, |i: int| mv_entry(a, s, i) as i64)
}

/// Recover row and column from a flat row-major index.
pub proof fn lemma_mat_index(i: int, j: int)
    requires
        0 <= i < 6,
        0 <= j < 6,
    ensures
        (6 * i + j) / 6 == i,
        (6 * i + j) % 6 == j,
{
    assert((6 * i + j) / 6 == i && (6 * i + j) % 6 == j) by (nonlinear_arith)
        requires
            0 <= i < 6,
            0 <= j < 6,
    ;
}

/// The entries of one row of the transition matrix, spelled out.
pub proof fn lemma_trans_mat_row(dt: int, i: int)
    requires
        0 <= i < 6,
    ensures
        trans_mat(dt)[6 * i] == trans_entry(dt, i, 0),
        trans_mat(dt)[6 * i + 1] == trans_entry(dt, i, 1),
        trans_mat(dt)[6 * i + 2] == trans_entry(dt, i, 2),
        trans_mat(dt)[6 * i + 3] == trans_entry(dt, i, 3),
        trans_mat(dt)[6 * i + 4] == trans_entry(dt, i, 4),
        trans_mat(dt)[6 * i + 5] == trans_entry(dt, i, 5),
{
    lemma_mat_index(i, 0);
    lemma_mat_index(i, 1);
    lemma_mat_index(i, 2);
    lemma_mat_index(i, 3);
    lemma_mat_index(i, 4);
    lemma_mat_index(i, 5);
}

/// Fixed-point 6x6 matrix product.
pub fn mat_mul(a: &Vec<i64>, b: &Vec<i64>) -> (out: Vec<i64>)
    requires
        mat_wf(a@),
        mat_wf(b@),
    ensures
        mat_wf(out@),
        out@ == mm_mat(a@, b@),
{
    let mut out: Vec<i64> = Vec::new();
    let mut i: usize = 0;
    while i < 6
        invariant
            mat_wf(a@),
            mat_wf(b@),
            i <= 6,
            out@.len() == 6 * i,
            forall|k: int|
                0 <= k < out@.len() ==> #[trigger] out@[k] == mm_entry(a@, b@, k / 6, k % 6),
        decreases 6 - i,
    {
        let mut j: usize = 0;
        while j < 6
            invariant
                mat_wf(a@),
                mat_wf(b@),
                i < 6,
                j <= 6,
                out@.len() == 6 * i + j,
                forall|k: int|
                    0 <= k < out@.len() ==> #[trigger] out@[k] == mm_entry(a@, b@, k / 6, k % 6),
            decreases 6 - j,
        {
            let r: usize = 6 * i;
            let acc0: i128 = mul_wide(a[r], b[j]);
            let acc1: i128 = acc0 + mul_wide(a[r + 1], b[6 + j]);
            let acc2: i128 = acc1 + mul_wide(a[r + 2], b[12 + j]);
            let acc3: i128 = acc2 + mul_wide(a[r + 3], b[18 + j]);
            let acc4: i128 = acc3 + mul_wide(a[r + 4], b[24 + j]);
            let acc5: i128 = acc4 + mul_wide(a[r + 5], b[30 + j]);
            let v: i64 = descale_wide(acc5);
            proof {
                assert(acc5 == dot_rc(a@, b@, i as int, j as int));
                assert((6 * i + j) / 6 == i as int && (6 * i + j) % 6 == j as int) by (nonlinear_arith)
                    requires
                        0 <= i < 6,
                        0 <= j < 6,
                ;
            }
            out.push(v);
            j += 1;
        }
        i += 1;
    }
    proof {
        assert(out@ =~= mm_mat(a@, b@));
    }
    out
}

/// Transpose of a 6x6 matrix.
pub fn mat_transpose(a: &Vec<i64>) -> (out: Vec<i64>)
    requires
        mat_wf(a@),
    ensures
        mat_wf(out@),
        out@ == mt_mat(a@),
{
    let mut out: Vec<i64> = Vec::new();
    let mut i: usize = 0;
    while i < 6
        invariant
            mat_wf(a@),
            i <= 6,
            out@.len() == 6 * i,
            forall|k: int| 0 <= k < out@.len() ==> #[trigger] out@[k] == a@[6 * (k % 6) + k / 6],
        decreases 6 - i,
    {
        let mut j: usize = 0;
        while j < 6
            invariant
                mat_wf(a@),
                i < 6,
                j <= 6,
                out@.len() == 6 * i + j,
                forall|k: int| 0 <= k < out@.len() ==> #[trigger] out@[k] == a@[6 * (k % 6) + k / 6],
            decreases 6 - j,
        {
            proof {
                assert((6 * i + j) / 6 == i as int && (6 * i + j) % 6 == j as int) by (nonlinear_arith)
                    requires
                        0 <= i < 6,
                        0 <= j < 6,
                ;
            }
            out.push(a[6 * j + i]);
            j += 1;
        }
        i += 1;
    }
    proof {
        assert(out@ =~= mt_mat(a@));
    }
    out
}

/// Entrywise saturating sum of two 6x6 matrices.
pub fn mat_add(a: &Vec<i64>, b: &Vec<i64>) -> (out: Vec<i64>)
    requires
        mat_wf(a@),
        mat_wf(b@),
    ensures
        mat_wf(out@),
        out@ == ma_mat(a@, b@),
{
    let mut out: Vec<i64> = Vec::new();
    let mut k: usize = 0;
    while k < 36
        invariant
            mat_wf(a@),
            mat_wf(b@),
            k <= 36,
            out@.len() == k,
            forall|t: int| 0 <= t < out@.len() ==> #[trigger] out@[t] == sat(a@[t] + b@[t]),
        decreases 36 - k,
    {
        let s: i128 = (a[k] as i128) + (b[k] as i128);
        out.push(sat_narrow(s));
        k += 1;
    }
    proof {
        assert(out@ =~= ma_mat(a@, b@));
    }
    out
}

/// Diagonal 6x6 matrix.
pub fn mat_diag(v: i64) -> (out: Vec<i64>)
    requires
        -LIM <= v <= LIM,
    ensures
        mat_wf(out@),
        out@ == diag36(v),
{
    let mut out: Vec<i64> = Vec::new();
    let mut i: usize = 0;
    while i < 6
        invariant
            -LIM <= v <= LIM,
            i <= 6,
            out@.len() == 6 * i,
            forall|k: int|
                0 <= k < out@.len() ==> #[trigger] out@[k] == (if k / 6 == k % 6 { v } else { 0i64 }),
        decreases 6 - i,
    {
        let mut j: usize = 0;
        while j < 6
            invariant
                -LIM <= v <= LIM,
                i < 6,
                j <= 6,
                out@.len() == 6 * i + j,
                forall|k: int|
                    0 <= k < out@.len() ==> #[trigger] out@[k] == (if k / 6 == k % 6 {
                        v
                    } else {
                        0i64
                    }),
            decreases 6 - j,
        {
            proof {
                assert((6 * i + j) / 6 == i as int && (6 * i + j) % 6 == j as int) by (nonlinear_arith)
                    requires
                        0 <= i < 6,
                        0 <= j < 6,
                ;
            }
            if i == j {
                out.push(v);
            } else {
                out.push(0);
            }
            j += 1;
        }
        i += 1;
    }
    proof {
        assert(out@ =~= diag36(v));
    }
    out
}

/// The constant-acceleration transition matrix for `dt` milliseconds.
pub fn mat_transition(dt: u64) -> (out: Vec<i64>)
    ensures
        mat_wf(out@),
        out@ == trans_mat(dt as int),
{
    let dtc: i64 = sat_narrow(dt as i128);
    let sq: i128 = mul_wide(dtc, dtc);
    let half: i64 = sat_narrow(div_wide(sq, 2 * (FP as i128)));
    proof {
        assert(half == sat(tdiv(sat(dt as int) * sat(dt as int), 2 * (FP as int))));
    }
    let mut out: Vec<i64> = Vec::new();
    let mut i: usize = 0;
    while i < 6
        invariant
            -LIM <= dtc <= LIM,
            dtc == sat(dt as int),
            half == sat(tdiv(sat(dt as int) * sat(dt as int), 2 * (FP as int))),
            i <= 6,
            out@.len() == 6 * i,
            forall|k: int|
                0 <= k < out@.len() ==> #[trigger] out@[k] == trans_entry(dt as int, k / 6, k % 6),
        decreases 6 - i,
    {
        let mut j: usize = 0;
        while j < 6
            invariant
                -LIM <= dtc <= LIM,
                dtc == sat(dt as int),
                half == sat(tdiv(sat(dt as int) * sat(dt as int), 2 * (FP as int))),
                i < 6,
                j <= 6,
                out@.len() == 6 * i + j,
                forall|k: int|
                    0 <= k < out@.len() ==> #[trigger] out@[k] == trans_entry(dt as int, k / 6, k % 6),
            decreases 6 - j,
        {
            proof {
                assert((6 * i + j) / 6 == i as int && (6 * i + j) % 6 == j as int) by (nonlinear_arith)
                    requires
                        0 <= i < 6,
                        0 <= j < 6,
                ;
            }
            if j == i {
                out.push(FP);
            } else if i < 4 && j == i + 2 {
                out.push(dtc);
            } else if i < 2 && j == i + 4 {
                out.push(half);
            } else {
                out.push(0);
            }
            j += 1;
        }
        i += 1;
    }
    proof {
        assert(out@ =~= trans_mat(dt as int));
    }
    out
}

/// Fixed-point 6x6 matrix times 6-vector.
pub fn mat_vec_mul(a: &Vec<i64>, s: &Vec<i64>) -> (out: Vec<i64>)
    requires
        mat_wf(a@),
        vec6_wf(s@),
    ensures
        vec6_wf(out@),
        out@ == mv_vec(a@, s@),
{
    let mut out: Vec<i64> = Vec::new();
    let mut i: usize = 0;
    while i < 6
        invariant
            mat_wf(a@),
            vec6_wf(s@),
            i <= 6,
            out@.len() == i,
            forall|k: int| 0 <= k < out@.len() ==> #[trigger] out@[k] == mv_entry(a@, s@, k),
        decreases 6 - i,
    {
        let r: usize = 6 * i;
        let acc0: i128 = mul_wide(a[r], s[0]);
        let acc1: i128 = acc0 + mul_wide(a[r + 1], s[1]);
        let acc2: i128 = acc1 + mul_wide(a[r + 2], s[2]);
        let acc3: i128 = acc2 + mul_wide(a[r + 3], s[3]);
        let acc4: i128 = acc3 + mul_wide(a[r + 4], s[4]);
        let acc5: i128 = acc4 + mul_wide(a[r + 5], s[5]);
        out.push(descale_wide(acc5));
        i += 1;
    }
    proof {
        assert(out@ =~= mv_vec(a@, s@));
    }
    out
}

} // verus!
