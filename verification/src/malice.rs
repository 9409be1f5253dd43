//! The malice harness: which stored records a misbehaving custodian
//! deletes in each round.

use vstd::prelude::*;
use vstd::utf8::encode_utf8;
use crate::bench::Bench;
use crate::settings::MaliciousBehavior;
use crate::util::text::bytes_of_text;

verus! {

/// Whether `a` comes before `b` or equals it when both are compared byte by
/// byte.
pub open spec fn bytes_le(a: Seq<u8>, b: Seq<u8>) -> bool
    decreases a.len(),
{
    if a.len() == 0 {
        true
    } else if b.len() == 0 {
        false
    } else if a[0] != b[0] {
        a[0] < b[0]
    } else {
        bytes_le(a.drop_first(), b.drop_first())
    }
}

/// Whether the path `a` comes before the path `b` or equals it.
pub open spec fn path_le(a: Seq<char>, b: Seq<char>) -> bool {
    bytes_le(encode_utf8(a), encode_utf8(b))
}

/// The byte order is total.
pub proof fn lemma_bytes_le_total(a: Seq<u8>, b: Seq<u8>)
    ensures
        bytes_le(a, b) || bytes_le(b, a),
    decreases a.len(),
{
    if a.len() > 0 && b.len() > 0 && a[0] == b[0] {
        lemma_bytes_le_total(a.drop_first(), b.drop_first());
    }
}

/// The byte order is transitive.
pub proof fn lemma_bytes_le_transitive(a: Seq<u8>, b: Seq<u8>, c: Seq<u8>)
    requires
        bytes_le(a, b),
        bytes_le(b, c),
    ensures
        bytes_le(a, c),
    decreases a.len(),
{
    if a.len() > 0 && b.len() > 0 && c.len() > 0 && a[0] == b[0] && b[0] == c[0] {
        lemma_bytes_le_transitive(a.drop_first(), b.drop_first(), c.drop_first());
    }
}

/// Whether `a` comes before `b` or equals it when both are compared byte by
/// byte.
fn le_bytes(a: &Vec<u8>, b: &Vec<u8>) -> (le: bool)
    ensures
        le == bytes_le(a@, b@),
{
    let mut k: usize = 0;
    assert(a@.skip(0) =~= a@ && b@.skip(0) =~= b@);
    while k < a.len() && k < b.len()
        invariant
            k <= a@.len(),
            k <= b@.len(),
            bytes_le(a@, b@) == bytes_le(a@.skip(k as int), b@.skip(k as int)),
        decreases a@.len() - k,
    {
        assert(a@.skip(k as int)[0] == a@[k as int]);
        assert(b@.skip(k as int)[0] == b@[k as int]);
        assert(a@.skip(k as int).drop_first() =~= a@.skip(k + 1));
        assert(b@.skip(k as int).drop_first() =~= b@.skip(k + 1));
        if a[k] != b[k] {
            return a[k] < b[k];
        }
        k = k + 1;
    }
    k == a.len()
}

/// What a harness knows of the rounds: the paths it deletes of those that
/// are stored.
pub trait IMalice {
    /// Whether the harness deletes the path at `k` of the stored paths.
    spec fn deletes(&self, paths: Seq<String>, k: int) -> bool;

    /// The places, among the stored paths, of those that this round
    /// deletes, in rising order.
    fn round(&self, paths: &Vec<String>) -> (targets: Vec<usize>)
        ensures
            forall|t: int| 0 <= t < targets@.len() ==> targets@[t] < paths@.len(),
            forall|a: int, b: int| 0 <= a < b < targets@.len() ==> targets@[a] < targets@[b],
            forall|k: int|
                0 <= k < paths@.len() ==> (#[trigger] self.deletes(paths@, k)
                    <==> targets@.contains(k as usize)),
    ;
}

/// The harness that does nothing.
#[derive(Debug, Default)]
pub struct MaliceNone {}

impl IMalice for MaliceNone {
    open spec fn deletes(&self, paths: Seq<String>, k: int) -> bool {
        false
    }

    fn round(&self, paths: &Vec<String>) -> (targets: Vec<usize>) {
        Vec::new()
    }
}

/// The harness that is meant to delete at random. It deletes nothing.
#[derive(Debug, Default)]
pub struct MaliceDeleteRandom {}

impl IMalice for MaliceDeleteRandom {
    open spec fn deletes(&self, paths: Seq<String>, k: int) -> bool {
        false
    }

    fn round(&self, paths: &Vec<String>) -> (targets: Vec<usize>) {
        Vec::new()
    }
}

/// The harness that deletes every stored record.
#[derive(Debug, Default)]
pub struct MaliceDeleteAll {}

impl MaliceDeleteAll {
    /// A harness that deletes every stored record.
    pub fn new() -> (malice: Self) {
        Self {  }
    }

    /// Notes in the table of deleted files that the record at `path` was
    /// deleted at `now`, in milliseconds since the Unix epoch.
    pub fn record(&self, bench: &mut Bench, path: String, now: u64)
        requires
            old(bench).wf(),
        ensures
            final(bench).wf(),
            final(bench).holds(path@),
            final(bench).deleted_at(path@) == now,
            forall|other: Seq<char>|
                other != path@ ==> final(bench).holds(other) == old(bench).holds(other),
            forall|other: Seq<char>|
                other != path@ && old(bench).holds(other) ==> final(bench).deleted_at(other)
                    == old(bench).deleted_at(other),
            final(bench).count() == old(bench).count() + if old(bench).holds(path@) {
                0int
            } else {
                1int
            },
    {
        bench.insert(path, now);
    }
}

impl IMalice for MaliceDeleteAll {
    open spec fn deletes(&self, paths: Seq<String>, k: int) -> bool {
        true
    }

    fn round(&self, paths: &Vec<String>) -> (targets: Vec<usize>) {
        let mut targets: Vec<usize> = Vec::new();
        let mut k: usize = 0;
        while k < paths.len()
            invariant
                k <= paths@.len(),
                targets@.len() == k,
                forall|t: int| 0 <= t < k ==> targets@[t] == t,
            decreases paths@.len() - k,
        {
            targets.push(k);
            k = k + 1;
        }
        assert forall|j: int| 0 <= j < paths@.len() implies (#[trigger] self.deletes(paths@, j)
            <==> targets@.contains(j as usize)) by {
            assert(targets@[j] == j as usize);
        }
        targets
    }
}

/// Whether the path at `k` is the last of the stored paths in their order:
/// no path comes after it, and of equal paths it is the first.
pub open spec fn is_last(paths: Seq<String>, k: int) -> bool {
    &&& 0 <= k < paths.len()
    &&& forall|j: int| 0 <= j < paths.len() ==> path_le(paths[j]@, paths[k]@)
    &&& forall|j: int| 0 <= j < k ==> !path_le(paths[k]@, paths[j]@)
}

/// The harness that deletes, in each round, the stored record whose path is
/// the last in the order of the paths.
#[derive(Debug, Default)]
pub struct MaliceDeleteLast {}

impl MaliceDeleteLast {
    /// A harness that deletes the last stored record.
    pub fn new() -> (malice: Self) {
        Self {  }
    }
}

impl IMalice for MaliceDeleteLast {
    open spec fn deletes(&self, paths: Seq<String>, k: int) -> bool {
        is_last(paths, k)
    }

    fn round(&self, paths: &Vec<String>) -> (targets: Vec<usize>) {
        let mut targets: Vec<usize> = Vec::new();
        if paths.len() == 0 {
            return targets;
        }
        let mut best: usize = 0;
        let mut best_bytes = bytes_of_text(paths[0].as_str());
        proof {
            lemma_bytes_le_total(best_bytes@, best_bytes@);
        }
        let mut k: usize = 1;
        while k < paths.len()
            invariant
                1 <= k <= paths@.len(),
                best < k,
                best_bytes@ == encode_utf8(paths@[best as int]@),
                forall|j: int| 0 <= j < k ==> path_le(paths@[j]@, paths@[best as int]@),
                forall|j: int| 0 <= j < best ==> !path_le(paths@[best as int]@, paths@[j]@),
            decreases paths@.len() - k,
        {
            let bytes = bytes_of_text(paths[k].as_str());
            if !le_bytes(&bytes, &best_bytes) {
                proof {
                    lemma_bytes_le_total(bytes@, best_bytes@);
                    assert forall|j: int| 0 <= j < k + 1 implies path_le(
                        paths@[j]@,
                        paths@[k as int]@,
                    ) by {
                        if j < k {
                            lemma_bytes_le_transitive(
                                encode_utf8(paths@[j]@),
                                best_bytes@,
                                bytes@,
                            );
                        } else {
                            lemma_bytes_le_total(bytes@, bytes@);
                        }
                    }
                    assert forall|j: int| 0 <= j < k implies !path_le(
                        paths@[k as int]@,
                        paths@[j]@,
                    ) by {
                        if path_le(paths@[k as int]@, paths@[j]@) {
                            lemma_bytes_le_transitive(
                                bytes@,
                                encode_utf8(paths@[j]@),
                                best_bytes@,
                            );
                        }
                    }
                }
                best = k;
                best_bytes = bytes;
            }
            k = k + 1;
        }
        targets.push(best);
        proof {
            assert(is_last(paths@, best as int));
            assert(targets@[0] == best);
            assert forall|j: int| 0 <= j < paths@.len() implies (#[trigger] is_last(paths@, j)
                <==> targets@.contains(j as usize)) by {
                if is_last(paths@, j) && j != best {
                    if j < best {
                        assert(path_le(paths@[best as int]@, paths@[j]@));
                    } else {
                        assert(path_le(paths@[j]@, paths@[best as int]@));
                    }
                }
            }
        }
        targets
    }
}

/// The harness that the configuration asks for.
#[derive(Debug)]
pub enum Malice {
    Idle(MaliceNone),
    DeleteAll(MaliceDeleteAll),
    DeleteLast(MaliceDeleteLast),
}

/// Builds the malice harness.
pub struct MaliceProvider;

impl MaliceProvider {
    /// The harness for the behavior that the configuration names.
    pub fn invoke(&mut self, settings: MaliciousBehavior) -> (malice: Malice)
        ensures
            match settings {
                MaliciousBehavior::Nothing => malice is Idle,
                MaliciousBehavior::DeleteAll => malice is DeleteAll,
                MaliciousBehavior::DeleteLast => malice is DeleteLast,
            },
    {
        match settings {
            MaliciousBehavior::Nothing => Malice::Idle(MaliceNone {  }),
            MaliciousBehavior::DeleteAll => Malice::DeleteAll(MaliceDeleteAll::new()),
            MaliciousBehavior::DeleteLast => Malice::DeleteLast(MaliceDeleteLast::new()),
        }
    }
}

} // verus!
