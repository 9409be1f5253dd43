//! What holds of the codec whatever the file, the challenge and the secret.

use vstd::prelude::*;
use crate::por::algebra::{at, dot, summary, lemma_exchange, lemma_response_dot, lemma_summary_dot};
use crate::por::codec::{ClientSecret, ServerFile, SECRET_SEED, le_word, le_byte, words_of, bytes_of, word_at};
use crate::por::layout::{rows_of, cols_of, num_chunks, lemma_dimensions, lemma_rows_are};
use crate::por::random::{Random, P57};

verus! {

/// The dimensions of a file that fits in memory fit in memory too.
pub proof fn lemma_dimensions_fit(len: nat)
    requires
        len <= usize::MAX,
    ensures
        rows_of(len) <= usize::MAX,
        cols_of(len) <= usize::MAX,
{
    lemma_dimensions(len);
    let n = num_chunks(len);
    let r = rows_of(len);
    let c = cols_of(len);
    assert(r - 56 < n) by (nonlinear_arith)
        requires
            (r - 56) * (r - 56) < n,
            r >= 56,
    ;
    assert(c - 1 < n) by (nonlinear_arith)
        requires
            r * (c - 1) < n,
            r >= 56,
            c >= 1,
    ;
}

/// The verifier and the custodian lay a file out alike: both get the same
/// number of rows and of columns, the rows are a multiple of 56, and the
/// matrix has room for every byte of the file.
pub proof fn law_setup_agrees(file: Seq<u8>)
    requires
        file.len() <= usize::MAX,
    ensures
        ClientSecret::of_file(file).rows == ServerFile::of_file(file).rows,
        ClientSecret::of_file(file).cols == ServerFile::of_file(file).cols,
        ClientSecret::of_file(file).rows % 56 == 0,
        ClientSecret::of_file(file).rows * ClientSecret::of_file(file).cols * 7 >= file.len(),
        ClientSecret::of_file(file).wf(),
{
    lemma_dimensions(file.len());
    lemma_dimensions_fit(file.len());
}

/// The empty file has 56 rows and one column.
pub proof fn law_empty_file_dimensions()
    ensures
        rows_of(0) == 56,
        cols_of(0) == 1,
{
    lemma_rows_are(0, 56);
}

/// A response computed from the file itself passes the audit, whatever the
/// challenge of the right length.
pub proof fn law_honest_response_is_accepted(file: Seq<u8>, challenge: Seq<u64>)
    requires
        file.len() <= usize::MAX,
        challenge.len() == rows_of(file.len()),
    ensures
        ClientSecret::of_file(file).accepts(
            challenge,
            ServerFile::of_file(file).respond(challenge),
        ),
{
    law_response_from_custody(file, file, challenge);
}

/// A response computed from a file `held` of the same length as the file
/// `audited` passes the audit exactly when the challenge has the same
/// product, modulo `P57`, with the summaries of both files.
pub proof fn law_response_from_custody(audited: Seq<u8>, held: Seq<u8>, challenge: Seq<u64>)
    requires
        audited.len() <= usize::MAX,
        held.len() == audited.len(),
        challenge.len() == rows_of(audited.len()),
    ensures
        ClientSecret::of_file(audited).accepts(
            challenge,
            ServerFile::of_file(held).respond(challenge),
        ) <==> dot(challenge, ClientSecret::of_file(held).n, rows_of(audited.len())) % (P57 as nat)
            == dot(challenge, ClientSecret::of_file(audited).n, rows_of(audited.len())) % (
        P57 as nat),
{
    let len = audited.len();
    lemma_dimensions(len);
    lemma_dimensions_fit(len);
    let rows = rows_of(len);
    let cols = cols_of(len);
    let u = Random::vector(cols, SECRET_SEED);
    lemma_response_dot(held, rows, cols, challenge, u, cols);
    lemma_exchange(held, rows, challenge, u, rows, cols);
    lemma_summary_dot(held, rows, cols, challenge, u, rows);
    assert(ClientSecret::of_file(held).n == summary(held, rows, cols, u));
    assert(ServerFile::of_file(held).respond(challenge).len() == cols);
}

/// Two vectors of one length differ at most at `j`.
pub open spec fn differ_only_at(c: Seq<u64>, d: Seq<u64>, j: int) -> bool {
    c.len() == d.len() && forall|k: int| 0 <= k < c.len() && k != j ==> c[k] == d[k]
}

/// The dot products of two vectors that differ only at `j` with a third
/// vector differ by the difference at `j` times the third vector's entry.
pub proof fn lemma_dot_differs_at(c: Seq<u64>, d: Seq<u64>, s: Seq<u64>, j: int, n: nat)
    requires
        differ_only_at(c, d, j),
        0 <= j < c.len(),
        n <= c.len(),
    ensures
        dot(c, s, n) - dot(d, s, n) == if j < n {
            (c[j] - d[j]) * at(s, j)
        } else {
            0
        },
    decreases n,
{
    if n > 0 {
        lemma_dot_differs_at(c, d, s, j, (n - 1) as nat);
        let sj = at(s, n - 1) as int;
        if n - 1 == j {
            assert(c[j] as int * sj - d[j] as int * sj == (c[j] - d[j]) * sj) by (nonlinear_arith);
        } else {
            assert(c[n - 1] == d[n - 1]);
        }
    }
}

/// A number between `-m` and `m` that is a multiple of `m` is zero.
proof fn lemma_small_multiple_is_zero(x: int, m: int)
    requires
        0 < m,
        -m < x < m,
        x % m == 0,
    ensures
        x == 0,
{
    vstd::arithmetic::div_mod::lemma_fundamental_div_mod(x, m);
    let q = x / m;
    assert(x == m * q);
    assert(q == 0) by (nonlinear_arith)
        requires
            0 < m,
            -m < m * q < m,
    ;
}

/// What is known of the bound on the challenges that accept an altered
/// file, one row at a time. Let a custodian hold a file `held` in place of
/// the file `audited`, of the same length, and let the summaries of the two
/// files differ at row `j` by an amount that has an inverse modulo `P57`.
/// Then of the challenges of field elements that agree outside row `j` at
/// most one is accepted: two that are accepted are the same challenge.
pub proof fn law_at_most_one_accepted_entry(
    audited: Seq<u8>,
    held: Seq<u8>,
    c: Seq<u64>,
    d: Seq<u64>,
    j: int,
    inverse: int,
)
    requires
        audited.len() <= usize::MAX,
        held.len() == audited.len(),
        c.len() == rows_of(audited.len()),
        differ_only_at(c, d, j),
        0 <= j < c.len(),
        c[j] < P57,
        d[j] < P57,
        ((ClientSecret::of_file(held).n[j] - ClientSecret::of_file(audited).n[j]) * inverse) % (
        P57 as int) == 1,
        ClientSecret::of_file(audited).accepts(c, ServerFile::of_file(held).respond(c)),
        ClientSecret::of_file(audited).accepts(d, ServerFile::of_file(held).respond(d)),
    ensures
        c == d,
{
    let rows = rows_of(audited.len());
    let p = P57 as int;
    let sh = ClientSecret::of_file(held).n;
    let sa = ClientSecret::of_file(audited).n;
    lemma_dimensions(audited.len());
    lemma_dimensions_fit(audited.len());
    law_response_from_custody(audited, held, c);
    law_response_from_custody(audited, held, d);
    let a = dot(c, sh, rows) as int;
    let b = dot(c, sa, rows) as int;
    let a2 = dot(d, sh, rows) as int;
    let b2 = dot(d, sa, rows) as int;
    assert(a % p == b % p);
    assert(a2 % p == b2 % p);
    lemma_dot_differs_at(c, d, sh, j, rows);
    lemma_dot_differs_at(c, d, sa, j, rows);
    assert(sh.len() == rows && sa.len() == rows);
    let delta = c[j] - d[j];
    let gap = sh[j] - sa[j];
    assert((a - a2) - (b - b2) == delta * gap) by (nonlinear_arith)
        requires
            a - a2 == delta * (sh[j] as int),
            b - b2 == delta * (sa[j] as int),
            gap == sh[j] - sa[j],
    ;
    vstd::arithmetic::div_mod::lemma_mod_equivalence(a, b, p);
    vstd::arithmetic::div_mod::lemma_mod_equivalence(a2, b2, p);
    vstd::arithmetic::div_mod::lemma_mod_equivalence(a - b, a2 - b2, p);
    assert(((a - b) - (a2 - b2)) % p == 0);
    assert((delta * gap) % p == 0);
    vstd::arithmetic::div_mod::lemma_mul_mod_noop_left(delta * gap, inverse, p);
    assert(((delta * gap) * inverse) % p == 0) by {
        assert(0 * inverse == 0) by (nonlinear_arith);
    }
    assert((delta * gap) * inverse == delta * (gap * inverse)) by (nonlinear_arith);
    vstd::arithmetic::div_mod::lemma_mul_mod_noop_right(delta, gap * inverse, p);
    assert(delta * 1 == delta) by (nonlinear_arith);
    assert(delta % p == 0);
    lemma_small_multiple_is_zero(delta, p);
    assert(c =~= d);
}

/// The bytes of a word give the word back.
pub proof fn lemma_word_round_trip(x: u64)
    ensures
        le_word(
            le_byte(x, 0),
            le_byte(x, 1),
            le_byte(x, 2),
            le_byte(x, 3),
            le_byte(x, 4),
            le_byte(x, 5),
            le_byte(x, 6),
            le_byte(x, 7),
        ) == x,
{
    assert((((x >> 0u64) & 0xff) as u8 as u64) | ((((x >> 8u64) & 0xff) as u8 as u64) << 8) | ((((
    x >> 16u64) & 0xff) as u8 as u64) << 16) | ((((x >> 24u64) & 0xff) as u8 as u64) << 24) | ((((
    x >> 32u64) & 0xff) as u8 as u64) << 32) | ((((x >> 40u64) & 0xff) as u8 as u64) << 40) | ((((
    x >> 48u64) & 0xff) as u8 as u64) << 48) | ((((x >> 56u64) & 0xff) as u8 as u64) << 56) == x)
        by (bit_vector);
}

/// The bytes of a vector of words give the vector back.
pub proof fn lemma_words_round_trip(words: Seq<u64>)
    ensures
        words_of(bytes_of(words)) == words,
{
    let bytes = bytes_of(words);
    assert forall|k: int| 0 <= k < words.len() implies word_at(bytes, k) == words[k] by {
        lemma_word_round_trip(words[k]);
        assert(bytes[8 * k] == le_byte(words[k], 0));
        assert(bytes[8 * k + 1] == le_byte(words[k], 1));
        assert(bytes[8 * k + 2] == le_byte(words[k], 2));
        assert(bytes[8 * k + 3] == le_byte(words[k], 3));
        assert(bytes[8 * k + 4] == le_byte(words[k], 4));
        assert(bytes[8 * k + 5] == le_byte(words[k], 5));
        assert(bytes[8 * k + 6] == le_byte(words[k], 6));
        assert(bytes[8 * k + 7] == le_byte(words[k], 7));
    }
    assert(words_of(bytes) =~= words);
}

/// A secret written to the fields of a contract and read back is the same
/// secret, so it decides every audit as before.
pub proof fn law_contract_round_trip(secret: ClientSecret)
    ensures
        ({
            let fields = secret.to_fields();
            ClientSecret::of_fields(fields.0, fields.1, fields.2, fields.3) == secret
        }),
{
    lemma_words_round_trip(secret.m);
    lemma_words_round_trip(secret.n);
    let rows = secret.rows;
    let cols = secret.cols;
    assert((rows as i64) as usize == rows) by (bit_vector);
    assert((cols as i64) as usize == cols) by (bit_vector);
}

} // verus!
