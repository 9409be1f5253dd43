//! The linear algebra behind the audit: column and row sums of the file
//! matrix, dot products, and the exchange of the two sums on which the
//! audit rests.

use vstd::prelude::*;
use vstd::arithmetic::div_mod::{lemma_add_mod_noop, lemma_mul_mod_noop_left, lemma_mod_twice};
use crate::por::layout::entry;
use crate::por::random::P57;

verus! {

/// The entry of a vector, or zero past its end.
pub open spec fn at(v: Seq<u64>, k: int) -> nat {
    if 0 <= k < v.len() {
        v[k] as nat
    } else {
        0
    }
}

/// Column `i` of the file matrix times the first `j_end` entries of `c`.
pub open spec fn column_sum(file: Seq<u8>, rows: nat, i: int, c: Seq<u64>, j_end: nat) -> nat
    decreases j_end,
{
    if j_end == 0 {
        0
    } else {
        column_sum(file, rows, i, c, (j_end - 1) as nat) + entry(file, rows, j_end - 1, i) * at(
            c,
            j_end - 1,
        )
    }
}

/// Row `j` of the file matrix times the first `i_end` entries of `u`.
pub open spec fn row_sum(file: Seq<u8>, rows: nat, j: int, u: Seq<u64>, i_end: nat) -> nat
    decreases i_end,
{
    if i_end == 0 {
        0
    } else {
        row_sum(file, rows, j, u, (i_end - 1) as nat) + entry(file, rows, j, i_end - 1) * at(
            u,
            i_end - 1,
        )
    }
}

/// The dot product of the first `n` entries of two vectors.
pub open spec fn dot(a: Seq<u64>, b: Seq<u64>, n: nat) -> nat
    decreases n,
{
    if n == 0 {
        0
    } else {
        dot(a, b, (n - 1) as nat) + at(a, n - 1) * at(b, n - 1)
    }
}

/// The response that an honest custodian of `file` gives to a challenge:
/// the file matrix times the challenge, entry by entry modulo `P57`.
pub open spec fn response(file: Seq<u8>, rows: nat, cols: nat, c: Seq<u64>) -> Seq<u64> {
    Seq::new(cols, |i: int| (column_sum(file, rows, i, c, rows) % (P57 as nat)) as u64)
}

/// The summary that the verifier keeps of `file`: the secret vector `u`
/// times the file matrix, entry by entry modulo `P57`.
pub open spec fn summary(file: Seq<u8>, rows: nat, cols: nat, u: Seq<u64>) -> Seq<u64> {
    Seq::new(rows, |j: int| (row_sum(file, rows, j, u, cols) % (P57 as nat)) as u64)
}

/// The sum over the first `i_end` columns of the column's product with `c`,
/// weighted by `u`.
pub open spec fn weighted_columns(
    file: Seq<u8>,
    rows: nat,
    c: Seq<u64>,
    u: Seq<u64>,
    j_end: nat,
    i_end: nat,
) -> nat
    decreases i_end,
{
    if i_end == 0 {
        0
    } else {
        weighted_columns(file, rows, c, u, j_end, (i_end - 1) as nat) + column_sum(
            file,
            rows,
            i_end - 1,
            c,
            j_end,
        ) * at(u, i_end - 1)
    }
}

/// The sum over the first `j_end` rows of the row's product with `u`,
/// weighted by `c`.
pub open spec fn weighted_rows(
    file: Seq<u8>,
    rows: nat,
    c: Seq<u64>,
    u: Seq<u64>,
    j_end: nat,
    i_end: nat,
) -> nat
    decreases j_end,
{
    if j_end == 0 {
        0
    } else {
        weighted_rows(file, rows, c, u, (j_end - 1) as nat, i_end) + at(c, j_end - 1) * row_sum(
            file,
            rows,
            j_end - 1,
            u,
            i_end,
        )
    }
}

/// Adding a term to a sum that was reduced modulo `m` and reducing again
/// gives the reduced sum with the term.
pub proof fn lemma_accumulate(acc: nat, total: nat, term: nat, m: nat)
    requires
        m > 0,
        acc == total % m,
    ensures
        (acc + term) % m == (total + term) % m,
{
    lemma_add_mod_noop(total as int, term as int, m as int);
    lemma_add_mod_noop(acc as int, term as int, m as int);
    lemma_mod_twice(total as int, m as int);
}

/// Taking one more column into account adds that column's product with `c`,
/// times the column's weight, to the weighted rows.
proof fn lemma_weighted_rows_step(
    file: Seq<u8>,
    rows: nat,
    c: Seq<u64>,
    u: Seq<u64>,
    j_end: nat,
    i: nat,
)
    ensures
        weighted_rows(file, rows, c, u, j_end, i + 1) == weighted_rows(file, rows, c, u, j_end, i)
            + column_sum(file, rows, i as int, c, j_end) * at(u, i as int),
    decreases j_end,
{
    if j_end > 0 {
        let j = (j_end - 1) as nat;
        lemma_weighted_rows_step(file, rows, c, u, j, i);
        let cj = at(c, j as int) as int;
        let ui = at(u, i as int) as int;
        let e = entry(file, rows, j as int, i as int) as int;
        let rs = row_sum(file, rows, j as int, u, i) as int;
        let cs = column_sum(file, rows, i as int, c, j) as int;
        assert(row_sum(file, rows, j as int, u, i + 1) == rs + e * ui);
        assert(column_sum(file, rows, i as int, c, j_end) == cs + e * cj);
        assert(cj * (rs + e * ui) == cj * rs + (e * cj) * ui) by (nonlinear_arith);
        assert((cs + e * cj) * ui == cs * ui + (e * cj) * ui) by (nonlinear_arith);
        assert(weighted_rows(file, rows, c, u, j_end, i + 1) == weighted_rows(
            file,
            rows,
            c,
            u,
            j,
            i + 1,
        ) + cj * (rs + e * ui));
        assert(weighted_rows(file, rows, c, u, j_end, i) == weighted_rows(file, rows, c, u, j, i)
            + cj * rs);
    } else {
        assert(0 * at(u, i as int) == 0) by (nonlinear_arith);
    }
}

/// With no columns taken into account the weighted rows sum to zero.
proof fn lemma_weighted_rows_empty(file: Seq<u8>, rows: nat, c: Seq<u64>, u: Seq<u64>, j_end: nat)
    ensures
        weighted_rows(file, rows, c, u, j_end, 0) == 0,
    decreases j_end,
{
    if j_end > 0 {
        lemma_weighted_rows_empty(file, rows, c, u, (j_end - 1) as nat);
        assert(at(c, j_end - 1) * 0 == 0) by (nonlinear_arith);
    }
}

/// The two orders of summation agree: weighting the columns' products with
/// `c` by `u` gives what weighting the rows' products with `u` by `c` gives.
pub proof fn lemma_exchange(
    file: Seq<u8>,
    rows: nat,
    c: Seq<u64>,
    u: Seq<u64>,
    j_end: nat,
    i_end: nat,
)
    ensures
        weighted_columns(file, rows, c, u, j_end, i_end) == weighted_rows(
            file,
            rows,
            c,
            u,
            j_end,
            i_end,
        ),
    decreases i_end,
{
    if i_end == 0 {
        lemma_weighted_rows_empty(file, rows, c, u, j_end);
    } else {
        lemma_exchange(file, rows, c, u, j_end, (i_end - 1) as nat);
        lemma_weighted_rows_step(file, rows, c, u, j_end, (i_end - 1) as nat);
    }
}

/// The dot product of the honest response with `u` is congruent to the
/// weighted columns.
pub proof fn lemma_response_dot(
    file: Seq<u8>,
    rows: nat,
    cols: nat,
    c: Seq<u64>,
    u: Seq<u64>,
    i_end: nat,
)
    requires
        i_end <= cols,
    ensures
        dot(response(file, rows, cols, c), u, i_end) % (P57 as nat) == weighted_columns(
            file,
            rows,
            c,
            u,
            rows,
            i_end,
        ) % (P57 as nat),
    decreases i_end,
{
    if i_end > 0 {
        let i = (i_end - 1) as nat;
        lemma_response_dot(file, rows, cols, c, u, i);
        let r = response(file, rows, cols, c);
        let p = P57 as int;
        let cs = column_sum(file, rows, i as int, c, rows) as int;
        let ui = at(u, i as int) as int;
        assert(at(r, i as int) == cs % p);
        lemma_mul_mod_noop_left(cs, ui, p);
        lemma_add_mod_noop(dot(r, u, i) as int, (cs % p) * ui, p);
        lemma_add_mod_noop(weighted_columns(file, rows, c, u, rows, i) as int, cs * ui, p);
    }
}

/// The dot product of a challenge with the summary is congruent to the
/// weighted rows.
pub proof fn lemma_summary_dot(
    file: Seq<u8>,
    rows: nat,
    cols: nat,
    c: Seq<u64>,
    u: Seq<u64>,
    j_end: nat,
)
    requires
        j_end <= rows,
    ensures
        dot(c, summary(file, rows, cols, u), j_end) % (P57 as nat) == weighted_rows(
            file,
            rows,
            c,
            u,
            j_end,
            cols,
        ) % (P57 as nat),
    decreases j_end,
{
    if j_end > 0 {
        let j = (j_end - 1) as nat;
        lemma_summary_dot(file, rows, cols, c, u, j);
        let s = summary(file, rows, cols, u);
        let p = P57 as int;
        let rs = row_sum(file, rows, j as int, u, cols) as int;
        let cj = at(c, j as int) as int;
        assert(at(s, j as int) == rs % p);
        vstd::arithmetic::div_mod::lemma_mul_mod_noop_right(cj, rs, p);
        lemma_add_mod_noop(dot(c, s, j) as int, cj * (rs % p), p);
        lemma_add_mod_noop(weighted_rows(file, rows, c, u, j, cols) as int, cj * rs, p);
    }
}

} // verus!
