//! The pseudorandom generator that feeds the codec: a 127-bit xorshift-style
//! generator with two 64-bit state words and three tuning parameters.

use vstd::prelude::*;

verus! {

/// The field order: the largest prime below `2^57`.
pub const P57: u64 = 144115188075855859;

/// The number of bits of a field element.
pub const P_BITS: u64 = 57;

/// The low 57 bits.
pub const P_MASK: u64 = 0x01ff_ffff_ffff_ffff;

/// The low 63 bits: the part of the first state word that takes part in the
/// state transition.
pub const TINYMT_MASK: u64 = 0x7fff_ffff_ffff_ffff;

/// One more than the number of mixing rounds run by `init`.
pub const MIN_LOOP: u64 = 8;

/// The multiplier of the mixing rounds.
pub const MIX_MULTIPLIER: u64 = 6364136223846793005;

/// How many draws in a row `rand_mod_p` rejects before it folds a draw into
/// range instead. A draw is rejected with probability `13 / 2^57`.
pub const REJECTION_LIMIT: u64 = 64;

/// The generator state.
#[derive(Clone, Copy, Debug)]
pub struct Random {
    pub status0: u64,
    pub status1: u64,
    pub mat1: u32,
    pub mat2: u32,
    pub tmat: u64,
}

/// The value that mixing round `i` folds into one state word, computed from
/// the other state word.
pub open spec fn mix(i: u64, prev: u64) -> u64 {
    ((i as int + MIX_MULTIPLIER as int * ((prev ^ (prev >> 62)) as int))
        % 0x1_0000_0000_0000_0000) as u64
}

/// The sum of the two state words as `temper` forms it: reduced modulo
/// `2^64 - 1`.
pub open spec fn folded_sum(a: u64, b: u64) -> u64 {
    ((a as int + b as int) % 0xffff_ffff_ffff_ffff) as u64
}

/// The four xor-shifts at the heart of the state transition.
pub open spec fn scramble(x0: u64) -> u64 {
    let x1 = x0 ^ (x0 << 12);
    let x2 = x1 ^ (x1 >> 32);
    let x3 = x2 ^ (x2 << 32);
    x3 ^ (x3 << 11)
}

impl Random {
    /// A generator with all parameters and both state words zero.
    pub open spec fn blank() -> Random {
        Random { status0: 0, status1: 0, mat1: 0, mat2: 0, tmat: 0 }
    }

    /// The state after mixing rounds `1..=i`.
    pub open spec fn mixed(self, i: nat) -> Random
        decreases i,
    {
        if i == 0 {
            self
        } else {
            let p = self.mixed((i - 1) as nat);
            if i % 2 == 1 {
                Random { status1: p.status1 ^ mix(i as u64, p.status0), ..p }
            } else {
                Random { status0: p.status0 ^ mix(i as u64, p.status1), ..p }
            }
        }
    }

    /// The state with an all-zero state replaced by the words `'T'`, `'M'`.
    pub open spec fn certified(self) -> Random {
        if (self.status0 & TINYMT_MASK) == 0 && self.status1 == 0 {
            Random { status0: 'T' as u64, status1: 'M' as u64, ..self }
        } else {
            self
        }
    }

    /// The state that `init` leaves for a seed.
    pub open spec fn seeded(self, seed: u64) -> Random {
        Random {
            status0: seed ^ ((self.mat1 as u64) << 32),
            status1: (self.mat2 as u64) ^ self.tmat,
            ..self
        }.mixed((MIN_LOOP - 1) as nat).certified()
    }

    /// The state after one transition.
    pub open spec fn stepped(self) -> Random {
        let x = scramble((self.status0 & TINYMT_MASK) ^ self.status1);
        if x & 1 == 1 {
            Random {
                status0: self.status1 ^ (self.mat1 as u64),
                status1: x ^ ((self.mat2 as u64) << 32),
                ..self
            }
        } else {
            Random { status0: self.status1, status1: x, ..self }
        }
    }

    /// The 64-bit output of the current state.
    pub open spec fn tempered(self) -> u64 {
        let x = folded_sum(self.status0, self.status1) ^ (self.status0 >> 8);
        if x & 1 == 1 {
            x ^ self.tmat
        } else {
            x
        }
    }

    /// The field element drawn from this state, and the state after the
    /// draw, when at most `fuel` more outputs may be rejected.
    pub open spec fn drawn_within(self, fuel: nat) -> (Random, u64)
        decreases fuel,
    {
        let s = self.stepped();
        let v = s.tempered() & P_MASK;
        if v < P57 {
            (s, v)
        } else if fuel == 0 {
            (s, (v - P57) as u64)
        } else {
            s.drawn_within((fuel - 1) as nat)
        }
    }

    /// The field element drawn from this state, and the state after the draw.
    pub open spec fn drawn(self) -> (Random, u64) {
        self.drawn_within(REJECTION_LIMIT as nat)
    }

    /// The state after `n` draws.
    pub open spec fn after_draws(self, n: nat) -> Random
        decreases n,
    {
        if n == 0 {
            self
        } else {
            self.after_draws((n - 1) as nat).drawn().0
        }
    }

    /// The first `n` field elements drawn from this state.
    pub open spec fn draws(self, n: nat) -> Seq<u64> {
        Seq::new(n, |k: int| self.after_draws(k as nat).drawn().1)
    }

    /// The vector of `n` field elements that a seed stands for.
    pub open spec fn vector(n: nat, seed: u64) -> Seq<u64> {
        Random::blank().seeded(seed).draws(n)
    }

    /// Seeds the generator: sets both state words from the seed and the
    /// parameters, runs the mixing rounds and certifies the period.
    pub fn init(&mut self, seed: u64)
        ensures
            *final(self) == old(self).seeded(seed),
    {
        self.status0 = seed ^ ((self.mat1 as u64) << 32);
        self.status1 = (self.mat2 as u64) ^ self.tmat;
        let ghost start = *self;
        let mut i: u64 = 1;
        while i < MIN_LOOP
            invariant
                1 <= i <= MIN_LOOP,
                *self == start.mixed((i - 1) as nat),
            decreases MIN_LOOP - i,
        {
            if i % 2 == 1 {
                let m = mix_word(i, self.status0);
                self.status1 = self.status1 ^ m;
            } else {
                let m = mix_word(i, self.status1);
                self.status0 = self.status0 ^ m;
            }
            i = i + 1;
        }
        self.period_certification();
    }

    /// Replaces a state from which the generator would never leave zero.
    pub fn period_certification(&mut self)
        ensures
            *final(self) == old(self).certified(),
    {
        if (self.status0 & TINYMT_MASK) == 0 && self.status1 == 0 {
            self.status0 = 'T' as u64;
            self.status1 = 'M' as u64;
        }
    }

    /// Draws a field element: the first output, masked to 57 bits, that is
    /// below `P57`. After `REJECTION_LIMIT` rejections in a row the next
    /// rejected output is reduced by `P57` and returned instead.
    pub fn rand_mod_p(&mut self) -> (val: u64)
        ensures
            val < P57,
            (*final(self), val) == old(self).drawn(),
    {
        let mut fuel: u64 = REJECTION_LIMIT;
        loop
            invariant
                fuel <= REJECTION_LIMIT,
                self.drawn_within(fuel as nat) == old(self).drawn(),
            decreases fuel,
        {
            let raw = self.generate_uint64();
            let val = raw & P_MASK;
            assert(val <= P_MASK) by (bit_vector)
                requires
                    val == raw & P_MASK,
            ;
            if val < P57 {
                return val;
            }
            if fuel == 0 {
                return val - P57;
            }
            fuel = fuel - 1;
        }
    }

    /// Advances the state and returns its 64-bit output.
    pub fn generate_uint64(&mut self) -> (out: u64)
        ensures
            *final(self) == old(self).stepped(),
            out == old(self).stepped().tempered(),
    {
        self.next_state();
        self.temper()
    }

    /// The 64-bit output of the current state.
    pub fn temper(&self) -> (out: u64)
        ensures
            out == self.tempered(),
    {
        let sum: u128 = (self.status0 as u128 + self.status1 as u128) % (u64::MAX as u128);
        let mut x: u64 = sum as u64;
        x = x ^ (self.status0 >> 8);
        if x & 1 == 1 {
            x = x ^ self.tmat;
        }
        x
    }

    /// The state transition.
    pub fn next_state(&mut self)
        ensures
            *final(self) == old(self).stepped(),
    {
        let mut x: u64 = (self.status0 & TINYMT_MASK) ^ self.status1;
        x = x ^ (x << 12);
        x = x ^ (x >> 32);
        x = x ^ (x << 32);
        x = x ^ (x << 11);
        self.status0 = self.status1;
        self.status1 = x;
        if x & 1 == 1 {
            self.status0 = self.status0 ^ (self.mat1 as u64);
            self.status1 = self.status1 ^ ((self.mat2 as u64) << 32);
        }
    }

    /// The vector of `size` field elements that a seed stands for.
    pub fn rand_vector(size: usize, seed: u64) -> (vector: Vec<u64>)
        ensures
            vector@ == Random::vector(size as nat, seed),
            forall|k: int| 0 <= k < vector@.len() ==> vector@[k] < P57,
    {
        let mut state = Random { status0: 0, status1: 0, mat1: 0, mat2: 0, tmat: 0 };
        state.init(seed);
        let ghost start = state;
        let mut vector: Vec<u64> = Vec::new();
        let mut i: usize = 0;
        while i < size
            invariant
                i <= size,
                vector@.len() == i,
                state == start.after_draws(i as nat),
                vector@ == start.draws(i as nat),
                forall|k: int| 0 <= k < vector@.len() ==> vector@[k] < P57,
            decreases size - i,
        {
            let val = state.rand_mod_p();
            vector.push(val);
            i = i + 1;
            assert(vector@ =~= start.draws(i as nat));
        }
        vector
    }
}

/// Computes the value that mixing round `i` folds into a state word.
fn mix_word(i: u64, prev: u64) -> (m: u64)
    requires
        i < MIN_LOOP,
    ensures
        m == mix(i, prev),
{
    let t: u64 = prev ^ (prev >> 62);
    assert(MIX_MULTIPLIER as int * t as int <= 0x8000_0000_0000_0000 * 0x1_0000_0000_0000_0000)
        by (nonlinear_arith)
        requires
            0 <= t as int <= 0x1_0000_0000_0000_0000,
            0 <= MIX_MULTIPLIER as int <= 0x8000_0000_0000_0000,
    ;
    let wide: u128 = i as u128 + (MIX_MULTIPLIER as u128) * (t as u128);
    (wide % 0x1_0000_0000_0000_0000u128) as u64
}

} // verus!
