//! The two sides of an audit. The verifier derives a secret from a file and
//! keeps it; later it sends a challenge, and decides from the secret alone
//! whether the custodian's response comes from the same file.

use vstd::prelude::*;
use crate::por::algebra::{at, column_sum, row_sum, dot, response, summary, lemma_accumulate};
use crate::por::layout::{rows_of, cols_of, dimensions, chunk_at, entry};
use crate::por::random::{Random, P57};
use crate::util::types::Contract;

verus! {

/// The seed of the secret vector.
pub const SECRET_SEED: u64 = 2020;

/// The seed of the challenge vector.
pub const CHALLENGE_SEED: u64 = 20;

/// The 64-bit word whose little-endian bytes are `b0` to `b7`.
pub open spec fn le_word(b0: u8, b1: u8, b2: u8, b3: u8, b4: u8, b5: u8, b6: u8, b7: u8) -> u64 {
    (b0 as u64) | ((b1 as u64) << 8) | ((b2 as u64) << 16) | ((b3 as u64) << 24) | ((b4 as u64)
        << 32) | ((b5 as u64) << 40) | ((b6 as u64) << 48) | ((b7 as u64) << 56)
}

/// Byte `b` of the little-endian form of `x`.
pub open spec fn le_byte(x: u64, b: int) -> u8 {
    ((x >> ((8 * b) as u64)) & 0xff) as u8
}

/// The word made of the eight bytes from position `8 * k`.
pub open spec fn word_at(bytes: Seq<u8>, k: int) -> u64 {
    le_word(
        bytes[8 * k],
        bytes[8 * k + 1],
        bytes[8 * k + 2],
        bytes[8 * k + 3],
        bytes[8 * k + 4],
        bytes[8 * k + 5],
        bytes[8 * k + 6],
        bytes[8 * k + 7],
    )
}

/// The words that a byte string holds, eight bytes each in little-endian
/// order. Bytes after the last full word are left out.
pub open spec fn words_of(bytes: Seq<u8>) -> Seq<u64> {
    Seq::new(bytes.len() / 8, |k: int| word_at(bytes, k))
}

/// The little-endian bytes of a vector of words.
pub open spec fn bytes_of(words: Seq<u64>) -> Seq<u8> {
    Seq::new(8 * words.len(), |k: int| le_byte(words[k / 8], k % 8))
}

/// What the verifier keeps of a file.
pub struct ClientSecret {
    pub rows: usize,
    pub cols: usize,
    /// The secret vector `u`, one entry for each column.
    pub m: Seq<u64>,
    /// The summary `s`, one entry for each row.
    pub n: Seq<u64>,
}

impl ClientSecret {
    /// The secret vector has an entry for each column and the summary one
    /// for each row.
    pub open spec fn wf(self) -> bool {
        self.m.len() >= self.cols && self.n.len() >= self.rows
    }

    /// The secret that the verifier derives from a file.
    pub open spec fn of_file(file: Seq<u8>) -> ClientSecret {
        let rows = rows_of(file.len());
        let cols = cols_of(file.len());
        let u = Random::vector(cols, SECRET_SEED);
        ClientSecret { rows: rows as usize, cols: cols as usize, m: u, n: summary(file, rows, cols, u) }
    }

    /// The secret that the fields of a contract stand for.
    pub open spec fn of_fields(secret_n: Seq<u8>, secret_m: Seq<u8>, rows: i64, cols: i64)
        -> ClientSecret {
        ClientSecret {
            rows: rows as usize,
            cols: cols as usize,
            m: words_of(secret_m),
            n: words_of(secret_n),
        }
    }

    /// The contract fields that stand for this secret.
    pub open spec fn to_fields(self) -> (Seq<u8>, Seq<u8>, i64, i64) {
        (bytes_of(self.n), bytes_of(self.m), self.rows as i64, self.cols as i64)
    }

    /// Whether an audit of a response to a challenge can be decided: where
    /// both have the right length, so that the products are formed, the
    /// secret vector and the summary must have an entry for each column and
    /// each row.
    pub open spec fn auditable(self, challenge: Seq<u64>, response: Seq<u64>) -> bool {
        response.len() == self.cols && challenge.len() == self.rows ==> self.wf()
    }

    /// The challenge that the verifier sends.
    pub open spec fn challenge(self) -> Seq<u64> {
        Random::vector(self.rows as nat, CHALLENGE_SEED)
    }

    /// Whether the audit accepts a response to a challenge: both have the
    /// right length, and the response times the secret vector is congruent
    /// to the challenge times the summary.
    pub open spec fn accepts(self, challenge: Seq<u64>, response: Seq<u64>) -> bool {
        &&& response.len() == self.cols
        &&& challenge.len() == self.rows
        &&& dot(response, self.m, self.cols as nat) % (P57 as nat) == dot(
            challenge,
            self.n,
            self.rows as nat,
        ) % (P57 as nat)
    }
}

/// What the custodian holds of a file.
pub struct ServerFile {
    pub rows: usize,
    pub cols: usize,
    pub file: Seq<u8>,
}

impl ServerFile {
    /// What the custodian holds after it accepted a file.
    pub open spec fn of_file(file: Seq<u8>) -> ServerFile {
        ServerFile {
            rows: rows_of(file.len()) as usize,
            cols: cols_of(file.len()) as usize,
            file,
        }
    }

    /// The response to a challenge.
    pub open spec fn respond(self, challenge: Seq<u64>) -> Seq<u64> {
        response(self.file, self.rows as nat, self.cols as nat, challenge)
    }
}

/// The verifier's secret for one file.
#[derive(Debug)]
pub struct VerificationClientConfig {
    pub rows: usize,
    pub cols: usize,
    pub secret_m_vector: Vec<u64>,
    pub secret_n_vector: Vec<u64>,
}

impl View for VerificationClientConfig {
    type V = ClientSecret;

    open spec fn view(&self) -> ClientSecret {
        ClientSecret {
            rows: self.rows,
            cols: self.cols,
            m: self.secret_m_vector@,
            n: self.secret_n_vector@,
        }
    }
}

/// `acc + a * b` modulo `P57`.
fn mul_add_mod(acc: u64, a: u64, b: u64) -> (r: u64)
    requires
        acc < P57,
    ensures
        r as nat == (acc as nat + (a as nat) * (b as nat)) % (P57 as nat),
        r < P57,
{
    assert(a as int * b as int <= 0xffff_ffff_ffff_ffff * 0xffff_ffff_ffff_ffff)
        by (nonlinear_arith)
        requires
            0 <= a as int <= 0xffff_ffff_ffff_ffff,
            0 <= b as int <= 0xffff_ffff_ffff_ffff,
    ;
    assert(0 <= a as int * b as int) by (nonlinear_arith)
        requires
            0 <= a as int,
            0 <= b as int,
    ;
    let wide: u128 = acc as u128 + (a as u128) * (b as u128);
    (wide % (P57 as u128)) as u64
}

/// A vector of `n` zeros.
fn zeros(n: usize) -> (v: Vec<u64>)
    ensures
        v@.len() == n,
        forall|k: int| 0 <= k < n ==> v@[k] == 0,
{
    let mut v: Vec<u64> = Vec::new();
    let mut k: usize = 0;
    while k < n
        invariant
            k <= n,
            v@.len() == k,
            forall|t: int| 0 <= t < k ==> v@[t] == 0,
        decreases n - k,
    {
        v.push(0);
        k = k + 1;
    }
    v
}

/// The words that a byte string holds, eight bytes each in little-endian
/// order; bytes after the last full word are left out.
pub fn bytes_to_u64(bytes: &Vec<u8>) -> (words: Vec<u64>)
    ensures
        words@ == words_of(bytes@),
{
    let count: usize = bytes.len() / 8;
    let mut words: Vec<u64> = Vec::new();
    let mut k: usize = 0;
    while k < count
        invariant
            k <= count,
            count == bytes@.len() / 8,
            bytes@.len() <= usize::MAX,
            words@.len() == k,
            forall|t: int| 0 <= t < k ==> words@[t] == word_at(bytes@, t),
        decreases count - k,
    {
        let base: usize = 8 * k;
        let word: u64 = (bytes[base] as u64) | ((bytes[base + 1] as u64) << 8) | ((bytes[base
            + 2] as u64) << 16) | ((bytes[base + 3] as u64) << 24) | ((bytes[base + 4] as u64)
            << 32) | ((bytes[base + 5] as u64) << 40) | ((bytes[base + 6] as u64) << 48) | ((
        bytes[base + 7] as u64) << 56);
        words.push(word);
        k = k + 1;
    }
    assert(words@ =~= words_of(bytes@));
    words
}

/// The little-endian bytes of a vector of words.
pub fn u64_to_bytes(u64s: &Vec<u64>) -> (bytes: Vec<u8>)
    ensures
        bytes@ == bytes_of(u64s@),
{
    let mut bytes: Vec<u8> = Vec::new();
    let mut k: usize = 0;
    while k < u64s.len()
        invariant
            k <= u64s@.len(),
            bytes@.len() == 8 * k,
            forall|t: int| 0 <= t < 8 * k ==> bytes@[t] == le_byte(u64s@[t / 8], t % 8),
        decreases u64s@.len() - k,
    {
        let x: u64 = u64s[k];
        let mut b: u64 = 0;
        while b < 8
            invariant
                b <= 8,
                k < u64s@.len(),
                x == u64s@[k as int],
                bytes@.len() == 8 * k + b,
                forall|t: int| 0 <= t < 8 * k + b ==> bytes@[t] == le_byte(u64s@[t / 8], t % 8),
            decreases 8 - b,
        {
            let byte: u64 = (x >> (8 * b)) & 0xff;
            assert(byte <= 0xff) by (bit_vector)
                requires
                    byte == (x >> (8 * b)) & 0xff,
            ;
            bytes.push(byte as u8);
            b = b + 1;
        }
        k = k + 1;
    }
    assert(bytes@ =~= bytes_of(u64s@));
    bytes
}

impl VerificationClientConfig {
    /// Whether the secret vector has an entry for each column and the
    /// summary one for each row.
    pub fn is_well_formed(&self) -> (ok: bool)
        ensures
            ok == self@.wf(),
    {
        self.secret_m_vector.len() >= self.cols && self.secret_n_vector.len() >= self.rows
    }

    /// The secret that a contract holds.
    pub fn from_contract(contract: &Contract) -> (config: Self)
        ensures
            config@ == ClientSecret::of_fields(
                contract@.secret_n,
                contract@.secret_m,
                contract@.rows,
                contract@.cols,
            ),
    {
        Self {
            rows: #[verifier::truncate] (contract.rows as usize),
            cols: #[verifier::truncate] (contract.cols as usize),
            secret_m_vector: bytes_to_u64(&contract.secret_m),
            secret_n_vector: bytes_to_u64(&contract.secret_n),
        }
    }

    /// The secret that the fields of a contract stand for. The vectors are
    /// read as little-endian words and the counts are taken as they are.
    pub fn from_contract_fields(secret_n: Vec<u8>, secret_m: Vec<u8>, rows: i64, cols: i64) -> (config:
        Self)
        ensures
            config@ == ClientSecret::of_fields(secret_n@, secret_m@, rows, cols),
    {
        Self {
            rows: #[verifier::truncate] (rows as usize),
            cols: #[verifier::truncate] (cols as usize),
            secret_m_vector: bytes_to_u64(&secret_m),
            secret_n_vector: bytes_to_u64(&secret_n),
        }
    }

    /// The contract fields that stand for this secret: the summary and the
    /// secret vector as little-endian bytes, then the rows and the columns.
    pub fn to_contract(&self) -> (fields: (Vec<u8>, Vec<u8>, i64, i64))
        ensures
            (fields.0@, fields.1@, fields.2, fields.3) == self@.to_fields(),
    {
        (
            u64_to_bytes(&self.secret_n_vector),
            u64_to_bytes(&self.secret_m_vector),
            #[verifier::truncate] (self.rows as i64),
            #[verifier::truncate] (self.cols as i64),
        )
    }

    /// Derives the verifier's secret from a file: the secret vector drawn
    /// from `SECRET_SEED`, and its product with the file matrix.
    pub fn from_file(file: &Vec<u8>) -> (config: Self)
        ensures
            config@ == ClientSecret::of_file(file@),
            config@.wf(),
    {
        let (rows, cols) = dimensions(file.len());
        let vector_u = Random::rand_vector(cols, SECRET_SEED);
        let mut partials: Vec<u64> = zeros(rows);
        let mut i: usize = 0;
        while i < cols
            invariant
                i <= cols,
                vector_u@.len() == cols,
                partials@.len() == rows,
                forall|j: int| 0 <= j < rows ==> partials@[j] < P57,
                forall|j: int|
                    0 <= j < rows ==> partials@[j] as nat == #[trigger] row_sum(
                        file@,
                        rows as nat,
                        j,
                        vector_u@,
                        i as nat,
                    ) % (P57 as nat),
            decreases cols - i,
        {
            let weight: u64 = vector_u[i];
            let ghost done: nat = (i + 1) as nat;
            let mut j: usize = 0;
            while j < rows
                invariant
                    j <= rows,
                    i < cols,
                    done == i + 1,
                    vector_u@.len() == cols,
                    weight == vector_u@[i as int],
                    partials@.len() == rows,
                    forall|t: int| 0 <= t < rows ==> partials@[t] < P57,
                    forall|t: int|
                        0 <= t < j ==> partials@[t] as nat == #[trigger] row_sum(
                            file@,
                            rows as nat,
                            t,
                            vector_u@,
                            done,
                        ) % (P57 as nat),
                    forall|t: int|
                        j <= t < rows ==> partials@[t] as nat == #[trigger] row_sum(
                            file@,
                            rows as nat,
                            t,
                            vector_u@,
                            i as nat,
                        ) % (P57 as nat),
                decreases rows - j,
            {
                let idx: u128 = chunk_index(i, rows, j);
                let data: u64 = chunk_at(file, idx);
                let acc: u64 = partials[j];
                let next: u64 = mul_add_mod(acc, data, weight);
                proof {
                    let total = row_sum(file@, rows as nat, j as int, vector_u@, i as nat);
                    assert(acc as nat == total % (P57 as nat));
                    lemma_accumulate(
                        acc as nat,
                        total,
                        (data as nat) * (weight as nat),
                        P57 as nat,
                    );
                    assert(entry(file@, rows as nat, j as int, i as int) == data as nat);
                    assert(at(vector_u@, i as int) == weight as nat);
                }
                partials.set(j, next);
                j = j + 1;
            }
            i = i + 1;
            assert(done == i as nat);
        }
        let config = Self { rows, cols, secret_m_vector: vector_u, secret_n_vector: partials };
        proof {
            let want = ClientSecret::of_file(file@);
            assert(config@.n =~= want.n);
        }
        config
    }
}

/// The index of the chunk in row `j` and column `i`.
fn chunk_index(i: usize, rows: usize, j: usize) -> (idx: u128)
    ensures
        idx == i * rows + j,
{
    assert(0 <= i as int * rows as int <= 0xffff_ffff_ffff_ffff * 0xffff_ffff_ffff_ffff)
        by (nonlinear_arith)
        requires
            0 <= i as int <= 0xffff_ffff_ffff_ffff,
            0 <= rows as int <= 0xffff_ffff_ffff_ffff,
    ;
    (i as u128) * (rows as u128) + (j as u128)
}

/// What the custodian holds of a file: the file itself and its dimensions.
#[derive(Debug)]
pub struct VerificationServerConfig {
    pub rows: usize,
    pub cols: usize,
    pub file: Vec<u8>,
}

impl View for VerificationServerConfig {
    type V = ServerFile;

    open spec fn view(&self) -> ServerFile {
        ServerFile { rows: self.rows, cols: self.cols, file: self.file@ }
    }
}

impl VerificationServerConfig {
    /// Takes a file into custody and fixes its dimensions.
    pub fn from_file(file: Vec<u8>) -> (config: Self)
        ensures
            config@ == ServerFile::of_file(file@),
    {
        let (rows, cols) = dimensions(file.len());
        Self { rows, cols, file }
    }
}

/// The verifier's side of an audit.
#[derive(Debug)]
pub struct VerificationClient {
    pub config: VerificationClientConfig,
}

impl VerificationClient {
    /// A verifier that holds the given secret.
    pub fn new(config: VerificationClientConfig) -> (client: Self)
        ensures
            client.config == config,
    {
        Self { config }
    }

    /// The challenge vector: one field element for each row, drawn from
    /// `CHALLENGE_SEED`.
    pub fn make_challenge_vector(&self) -> (challenge: Vec<u64>)
        ensures
            challenge@ == self.config@.challenge(),
            challenge@.len() == self.config.rows,
            forall|k: int| 0 <= k < challenge@.len() ==> challenge@[k] < P57,
    {
        Random::rand_vector(self.config.rows, CHALLENGE_SEED)
    }

    /// Whether `audit` can decide on a response to a challenge.
    pub fn can_audit(&self, challenge: &Vec<u64>, response: &Vec<u64>) -> (ok: bool)
        ensures
            ok == self.config@.auditable(challenge@, response@),
    {
        response.len() != self.config.cols || challenge.len() != self.config.rows
            || self.config.is_well_formed()
    }

    /// Decides an audit: `true` exactly when the response has one entry for
    /// each column, the challenge one for each row, and the response times
    /// the secret vector is congruent modulo `P57` to the challenge times
    /// the summary.
    pub fn audit(&self, challenge: Vec<u64>, response: Vec<u64>) -> (accepted: bool)
        requires
            self.config@.auditable(challenge@, response@),
        ensures
            accepted == self.config@.accepts(challenge@, response@),
    {
        if response.len() != self.config.cols {
            return false;
        }
        if challenge.len() != self.config.rows {
            return false;
        }
        let mut rxr: u64 = 0;
        let mut i: usize = 0;
        while i < self.config.cols
            invariant
                i <= self.config.cols,
                self.config@.wf(),
                response@.len() == self.config.cols,
                rxr < P57,
                rxr as nat == dot(response@, self.config.secret_m_vector@, i as nat) % (P57 as nat),
            decreases self.config.cols - i,
        {
            let next = mul_add_mod(rxr, response[i], self.config.secret_m_vector[i]);
            proof {
                lemma_accumulate(
                    rxr as nat,
                    dot(response@, self.config.secret_m_vector@, i as nat),
                    (response@[i as int] as nat) * (self.config.secret_m_vector@[i as int] as nat),
                    P57 as nat,
                );
            }
            rxr = next;
            i = i + 1;
        }
        let mut sxc: u64 = 0;
        let mut j: usize = 0;
        while j < self.config.rows
            invariant
                j <= self.config.rows,
                self.config@.wf(),
                challenge@.len() == self.config.rows,
                sxc < P57,
                sxc as nat == dot(challenge@, self.config.secret_n_vector@, j as nat) % (P57 as nat),
            decreases self.config.rows - j,
        {
            let next = mul_add_mod(sxc, challenge[j], self.config.secret_n_vector[j]);
            proof {
                lemma_accumulate(
                    sxc as nat,
                    dot(challenge@, self.config.secret_n_vector@, j as nat),
                    (challenge@[j as int] as nat) * (self.config.secret_n_vector@[j as int] as nat),
                    P57 as nat,
                );
            }
            sxc = next;
            j = j + 1;
        }
        rxr == sxc
    }
}

/// The custodian's side of an audit.
#[derive(Debug)]
pub struct VerificationServer {
    pub config: VerificationServerConfig,
}

impl VerificationServer {
    /// A custodian that holds the given file.
    pub fn new(config: VerificationServerConfig) -> (server: Self)
        ensures
            server.config == config,
    {
        Self { config }
    }

    /// Answers a challenge: the file matrix times the challenge, one entry
    /// for each column, each reduced modulo `P57`. Entries of the challenge
    /// past the number of rows are not read.
    pub fn fulfill_challenge(&self, challenge: Vec<u64>) -> (answer: Vec<u64>)
        requires
            challenge@.len() >= self.config.rows,
        ensures
            answer@ == self.config@.respond(challenge@),
            answer@.len() == self.config.cols,
            forall|k: int| 0 <= k < answer@.len() ==> answer@[k] < P57,
    {
        let rows = self.config.rows;
        let cols = self.config.cols;
        let mut answer: Vec<u64> = Vec::new();
        let mut i: usize = 0;
        while i < cols
            invariant
                i <= cols,
                rows == self.config.rows,
                cols == self.config.cols,
                challenge@.len() >= rows,
                answer@.len() == i,
                forall|t: int|
                    0 <= t < i ==> answer@[t] as nat == #[trigger] column_sum(
                        self.config.file@,
                        rows as nat,
                        t,
                        challenge@,
                        rows as nat,
                    ) % (P57 as nat),
                forall|k: int| 0 <= k < answer@.len() ==> answer@[k] < P57,
            decreases cols - i,
        {
            let mut acc: u64 = 0;
            let mut j: usize = 0;
            while j < rows
                invariant
                    j <= rows,
                    i < cols,
                    challenge@.len() >= rows,
                    acc < P57,
                    acc as nat == column_sum(
                        self.config.file@,
                        rows as nat,
                        i as int,
                        challenge@,
                        j as nat,
                    ) % (P57 as nat),
                decreases rows - j,
            {
                let idx: u128 = chunk_index(i, rows, j);
                let data: u64 = chunk_at(&self.config.file, idx);
                let next: u64 = mul_add_mod(acc, data, challenge[j]);
                proof {
                    lemma_accumulate(
                        acc as nat,
                        column_sum(
                            self.config.file@,
                            rows as nat,
                            i as int,
                            challenge@,
                            j as nat,
                        ),
                        (data as nat) * (challenge@[j as int] as nat),
                        P57 as nat,
                    );
                    assert(entry(self.config.file@, rows as nat, j as int, i as int)
                        == data as nat);
                }
                acc = next;
                j = j + 1;
            }
            answer.push(acc);
            i = i + 1;
        }
        assert(answer@ =~= self.config@.respond(challenge@));
        answer
    }
}

} // verus!
