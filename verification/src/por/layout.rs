//! How a file is laid out as a matrix of field elements: the number of rows
//! and columns for a file length, and the value of each 7-byte chunk.

use vstd::prelude::*;

verus! {

/// The number of file bytes in one chunk. Seven bytes are 56 bits, so every
/// chunk is below the field order.
pub const BYTES_UNDER_P: usize = 7;

/// The number of rows is a multiple of this.
pub const CHUNK_ALIGN: usize = 56;

/// One more than the largest chunk value: `2^56`.
pub const CHUNK_LIMIT: u64 = 0x0100_0000_0000_0000;

/// The number of chunks of a file of `len` bytes. The empty file counts as
/// one (all-zero) chunk.
pub open spec fn num_chunks(len: nat) -> nat {
    if len == 0 {
        1
    } else {
        (1 + (len - 1) / 7) as nat
    }
}

/// `r` is the square root of `n`, rounded up to a positive multiple of 56.
pub open spec fn is_aligned_root(n: nat, r: nat) -> bool {
    &&& r >= 56
    &&& r % 56 == 0
    &&& r * r >= n
    &&& (r - 56) * (r - 56) < n
}

/// The number of rows of the matrix of a file of `len` bytes.
pub open spec fn rows_of(len: nat) -> nat {
    choose|r: nat| is_aligned_root(num_chunks(len), r)
}

/// The number of columns of the matrix of a file of `len` bytes.
pub open spec fn cols_of(len: nat) -> nat {
    (1 + (num_chunks(len) - 1) / (rows_of(len) as int)) as nat
}

/// The byte at position `k` of a file followed by zeros without end.
pub open spec fn byte_at(file: Seq<u8>, k: int) -> nat {
    if 0 <= k < file.len() {
        file[k] as nat
    } else {
        0
    }
}

/// The value of chunk `idx`: its seven bytes read as a little-endian number.
pub open spec fn chunk(file: Seq<u8>, idx: int) -> nat {
    byte_at(file, 7 * idx) + 0x100 * byte_at(file, 7 * idx + 1) + 0x1_0000 * byte_at(
        file,
        7 * idx + 2,
    ) + 0x100_0000 * byte_at(file, 7 * idx + 3) + 0x1_0000_0000 * byte_at(file, 7 * idx + 4)
        + 0x100_0000_0000 * byte_at(file, 7 * idx + 5) + 0x1_0000_0000_0000 * byte_at(
        file,
        7 * idx + 6,
    )
}

/// The matrix entry in row `j` and column `i`: columns follow one another in
/// the file, each `rows` chunks long.
pub open spec fn entry(file: Seq<u8>, rows: nat, j: int, i: int) -> nat {
    chunk(file, i * rows + j)
}

/// At most one number is the aligned root of `n`.
pub proof fn lemma_aligned_root_unique(n: nat, a: nat, b: nat)
    requires
        is_aligned_root(n, a),
        is_aligned_root(n, b),
    ensures
        a == b,
{
    if a < b {
        assert(a * a <= (b - 56) * (b - 56)) by (nonlinear_arith)
            requires
                0 <= a <= b - 56,
        ;
    } else if b < a {
        assert(b * b <= (a - 56) * (a - 56)) by (nonlinear_arith)
            requires
                0 <= b <= a - 56,
        ;
    }
}

/// Searches upward from a multiple of 56 whose predecessor is too small.
proof fn lemma_aligned_root_search(n: nat, r: nat)
    requires
        r >= 56,
        r % 56 == 0,
        (r - 56) * (r - 56) < n,
    ensures
        exists|root: nat| is_aligned_root(n, root),
    decreases n + 56 - r,
{
    if r * r >= n {
        assert(is_aligned_root(n, r));
    } else {
        assert(r < n) by (nonlinear_arith)
            requires
                r * r < n,
                r >= 56,
        ;
        lemma_aligned_root_search(n, r + 56);
    }
}

/// Every positive number has an aligned root.
pub proof fn lemma_aligned_root_exists(n: nat)
    requires
        n >= 1,
    ensures
        is_aligned_root(n, choose|r: nat| is_aligned_root(n, r)),
{
    lemma_aligned_root_search(n, 56);
}

/// The dimensions of every file: the rows are a positive multiple of 56 and
/// the aligned root of the chunk count, the columns cover all chunks, and
/// the matrix has room for every byte of the file.
pub proof fn lemma_dimensions(len: nat)
    ensures
        is_aligned_root(num_chunks(len), rows_of(len)),
        rows_of(len) >= 56,
        rows_of(len) % 56 == 0,
        cols_of(len) >= 1,
        rows_of(len) * cols_of(len) >= num_chunks(len),
        rows_of(len) * (cols_of(len) - 1) < num_chunks(len),
        rows_of(len) * cols_of(len) * 7 >= len,
{
    let n = num_chunks(len);
    lemma_aligned_root_exists(n);
    let r = rows_of(len);
    let q = (n - 1) / (r as int);
    vstd::arithmetic::div_mod::lemma_fundamental_div_mod(n - 1, r as int);
    vstd::arithmetic::div_mod::lemma_mod_bound(n - 1, r as int);
    vstd::arithmetic::div_mod::lemma_div_pos_is_pos(n - 1, r as int);
    assert(r * (q + 1) == r * q + r) by (nonlinear_arith);
    assert(r * cols_of(len) * 7 >= n * 7) by (nonlinear_arith)
        requires
            r * cols_of(len) >= n,
    ;
}

/// A number that is the aligned root of a file's chunk count is the file's
/// number of rows.
pub proof fn lemma_rows_are(len: nat, r: nat)
    requires
        is_aligned_root(num_chunks(len), r),
    ensures
        rows_of(len) == r,
{
    lemma_dimensions(len);
    lemma_aligned_root_unique(num_chunks(len), r, rows_of(len));
}

/// Whether the square of `r` is below `n`.
fn square_below(r: usize, n: usize) -> (b: bool)
    ensures
        b == (r * r < n),
{
    assert(r as int * r as int <= 0xffff_ffff_ffff_ffff * 0xffff_ffff_ffff_ffff)
        by (nonlinear_arith)
        requires
            0 <= r as int <= 0xffff_ffff_ffff_ffff,
    ;
    (r as u128) * (r as u128) < (n as u128)
}

/// The number of rows and columns of the matrix of a file of `len` bytes.
pub fn dimensions(len: usize) -> (d: (usize, usize))
    ensures
        d.0 == rows_of(len as nat),
        d.1 == cols_of(len as nat),
{
    let n: usize = if len == 0 {
        1
    } else {
        1 + (len - 1) / BYTES_UNDER_P
    };
    let mut r: usize = CHUNK_ALIGN;
    let mut below: bool = square_below(r, n);
    while below
        invariant
            n == num_chunks(len as nat),
            n <= usize::MAX / 7 + 1,
            r >= 56,
            r % 56 == 0,
            (r - 56) * (r - 56) < n,
            below == (r * r < n),
        decreases n + 56 - r,
    {
        assert(r < n) by (nonlinear_arith)
            requires
                r * r < n,
                r >= 56,
        ;
        r = r + CHUNK_ALIGN;
        below = square_below(r, n);
    }
    proof {
        lemma_dimensions(len as nat);
        lemma_aligned_root_unique(n as nat, r as nat, rows_of(len as nat));
    }
    let cols: usize = 1 + (n - 1) / r;
    (r, cols)
}

/// The byte `off` places after `base` in a file followed by zeros.
fn byte_or_zero(file: &Vec<u8>, base: usize, off: usize) -> (b: u8)
    requires
        base < file@.len(),
        off < 7,
    ensures
        b as nat == byte_at(file@, base + off),
{
    if off < file.len() - base {
        file[base + off]
    } else {
        0
    }
}

/// The value of chunk `idx` of a file followed by zeros.
pub fn chunk_at(file: &Vec<u8>, idx: u128) -> (val: u64)
    ensures
        val as nat == chunk(file@, idx as int),
        val < CHUNK_LIMIT,
{
    let len = file.len();
    if len == 0 || idx > ((len - 1) / BYTES_UNDER_P) as u128 {
        return 0;
    }
    let base: usize = BYTES_UNDER_P * (idx as usize);
    let b0 = byte_or_zero(file, base, 0);
    let b1 = byte_or_zero(file, base, 1);
    let b2 = byte_or_zero(file, base, 2);
    let b3 = byte_or_zero(file, base, 3);
    let b4 = byte_or_zero(file, base, 4);
    let b5 = byte_or_zero(file, base, 5);
    let b6 = byte_or_zero(file, base, 6);
    (b0 as u64) + 0x100 * (b1 as u64) + 0x1_0000 * (b2 as u64) + 0x100_0000 * (b3 as u64)
        + 0x1_0000_0000 * (b4 as u64) + 0x100_0000_0000 * (b5 as u64) + 0x1_0000_0000_0000 * (
    b6 as u64)
}

} // verus!
