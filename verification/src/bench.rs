//! The table of files that the malice harness deleted, kept to measure how
//! long a deletion goes unnoticed.

use vstd::prelude::*;

verus! {

/// No path occurs twice among the entries.
pub open spec fn distinct(entries: Seq<(String, u64)>) -> bool {
    forall|a: int, b: int|
        0 <= a < entries.len() && 0 <= b < entries.len() && a != b ==> (#[trigger] entries[a]).0@
            != (#[trigger] entries[b]).0@
}

/// Whether the entry at `k` is for `path`.
pub open spec fn is_at(entries: Seq<(String, u64)>, path: Seq<char>, k: int) -> bool {
    0 <= k < entries.len() && entries[k].0@ == path
}

/// Whether a path is among the entries.
pub open spec fn holds_in(entries: Seq<(String, u64)>, path: Seq<char>) -> bool {
    exists|k: int| is_at(entries, path, k)
}

/// The time noted for a path that is among the entries.
pub open spec fn at_in(entries: Seq<(String, u64)>, path: Seq<char>) -> u64 {
    entries[choose|k: int| is_at(entries, path, k)].1
}

/// Among distinct entries the entry at `k` is the only one for its path.
pub proof fn lemma_entry(entries: Seq<(String, u64)>, k: int)
    requires
        distinct(entries),
        0 <= k < entries.len(),
    ensures
        holds_in(entries, entries[k].0@),
        at_in(entries, entries[k].0@) == entries[k].1,
{
    let path = entries[k].0@;
    assert(is_at(entries, path, k));
    let c = choose|c: int| is_at(entries, path, c);
    if c != k {
        assert(entries[c].0@ != entries[k].0@);
    }
}

/// What measures the harness.
pub trait IBench {

}

/// The files that were deleted locally, each with the time of its deletion
/// in milliseconds since the Unix epoch.
pub struct Bench {
    deleted_files: Vec<(String, u64)>,
}

impl IBench for Bench {

}

impl Bench {
    /// No path occurs twice.
    pub closed spec fn wf(&self) -> bool {
        distinct(self.deleted_files@)
    }

    /// Whether a path is in the table.
    pub closed spec fn holds(&self, path: Seq<char>) -> bool {
        holds_in(self.deleted_files@, path)
    }

    /// When the file at a path that is in the table was deleted.
    pub closed spec fn deleted_at(&self, path: Seq<char>) -> u64 {
        at_in(self.deleted_files@, path)
    }

    /// The number of paths in the table.
    pub closed spec fn count(&self) -> nat {
        self.deleted_files@.len()
    }

    /// The empty table.
    pub fn new() -> (bench: Bench)
        ensures
            bench.wf(),
            forall|path: Seq<char>| !bench.holds(path),
            bench.count() == 0,
    {
        let bench = Bench { deleted_files: Vec::new() };
        assert forall|path: Seq<char>| !bench.holds(path) by {
            assert(forall|k: int| !is_at(bench.deleted_files@, path, k));
        }
        bench
    }

    /// The number of paths in the table.
    pub fn len(&self) -> (n: usize)
        ensures
            n == self.count(),
    {
        self.deleted_files.len()
    }

    /// The place of a path in the table.
    fn position(&self, path: &String) -> (r: Option<usize>)
        ensures
            match r {
                Some(k) => is_at(self.deleted_files@, path@, k as int),
                None => !holds_in(self.deleted_files@, path@),
            },
    {
        let mut k: usize = 0;
        while k < self.deleted_files.len()
            invariant
                k <= self.deleted_files@.len(),
                forall|t: int| 0 <= t < k ==> !is_at(self.deleted_files@, path@, t),
            decreases self.deleted_files@.len() - k,
        {
            if self.deleted_files[k].0 == *path {
                return Some(k);
            }
            k = k + 1;
        }
        assert(forall|t: int| !is_at(self.deleted_files@, path@, t));
        None
    }

    /// Notes that the file at `path` was deleted at `at`. An earlier note
    /// for the same path is replaced.
    pub fn insert(&mut self, path: String, at: u64)
        requires
            old(self).wf(),
        ensures
            final(self).wf(),
            final(self).holds(path@),
            final(self).deleted_at(path@) == at,
            forall|other: Seq<char>|
                other != path@ ==> final(self).holds(other) == old(self).holds(other),
            forall|other: Seq<char>|
                other != path@ && old(self).holds(other) ==> final(self).deleted_at(other) == old(
                    self,
                ).deleted_at(other),
            final(self).count() == old(self).count() + if old(self).holds(path@) {
                0int
            } else {
                1int
            },
    {
        let ghost before = self.deleted_files@;
        let ghost name = path@;
        let found = self.position(&path);
        let ghost place: int = match found {
            Some(k) => k as int,
            None => before.len() as int,
        };
        match found {
            Some(k) => {
                self.deleted_files.set(k, (path, at));
            },
            None => {
                self.deleted_files.push((path, at));
            },
        }
        proof {
            let after = self.deleted_files@;
            assert(after[place].0@ == name && after[place].1 == at);
            assert(forall|t: int| 0 <= t < before.len() && t != place ==> after[t] == before[t]);
            assert forall|t: int| 0 <= t < before.len() && t != place implies before[t].0@
                != name by {
                if found is Some {
                    assert(is_at(before, name, place));
                    assert(before[t].0@ != before[place].0@);
                } else {
                    assert(!is_at(before, name, t));
                }
            }
            assert(distinct(after)) by {
                assert forall|a: int, b: int|
                    0 <= a < after.len() && 0 <= b < after.len() && a != b implies (
                #[trigger] after[a]).0@ != (#[trigger] after[b]).0@ by {
                    if a != place && b != place {
                        assert(before[a].0@ != before[b].0@);
                    }
                }
            }
            lemma_entry(after, place);
            assert forall|other: Seq<char>| other != name implies holds_in(after, other)
                == holds_in(before, other) && (holds_in(before, other) ==> at_in(after, other)
                == at_in(before, other)) by {
                if holds_in(before, other) {
                    let t = choose|t: int| is_at(before, other, t);
                    assert(is_at(after, other, t));
                    lemma_entry(before, t);
                    lemma_entry(after, t);
                }
                if holds_in(after, other) {
                    let t = choose|t: int| is_at(after, other, t);
                    assert(is_at(before, other, t));
                }
            }
        }
    }

    /// Takes the note for `path` out of the table and gives the time of the
    /// deletion, if the table has one.
    pub fn remove(&mut self, path: &String) -> (r: Option<u64>)
        requires
            old(self).wf(),
        ensures
            final(self).wf(),
            !final(self).holds(path@),
            match r {
                Some(at) => old(self).holds(path@) && at == old(self).deleted_at(path@),
                None => !old(self).holds(path@),
            },
            forall|other: Seq<char>|
                other != path@ ==> final(self).holds(other) == old(self).holds(other),
            forall|other: Seq<char>|
                other != path@ && old(self).holds(other) ==> final(self).deleted_at(other) == old(
                    self,
                ).deleted_at(other),
    {
        let ghost before = self.deleted_files@;
        match self.position(path) {
            Some(k) => {
                let entry = self.deleted_files.swap_remove(k);
                proof {
                    let after = self.deleted_files@;
                    let last = before.len() - 1;
                    let from = |t: int| if t == k { last } else { t };
                    lemma_entry(before, k as int);
                    assert(forall|t: int| 0 <= t < after.len() ==> after[t] == before[from(t)]);
                    assert(distinct(after)) by {
                        assert forall|a: int, b: int|
                            0 <= a < after.len() && 0 <= b < after.len() && a != b implies (
                        #[trigger] after[a]).0@ != (#[trigger] after[b]).0@ by {
                            assert(before[from(a)].0@ != before[from(b)].0@);
                        }
                    }
                    assert forall|other: Seq<char>| other != path@ implies holds_in(after, other)
                        == holds_in(before, other) && (holds_in(before, other) ==> at_in(
                        after,
                        other,
                    ) == at_in(before, other)) by {
                        if holds_in(before, other) {
                            let s = choose|s: int| is_at(before, other, s);
                            let t = if s == last { k as int } else { s };
                            assert(is_at(after, other, t));
                            lemma_entry(before, s);
                            lemma_entry(after, t);
                        }
                        if holds_in(after, other) {
                            let t = choose|t: int| is_at(after, other, t);
                            assert(is_at(before, other, from(t)));
                        }
                    }
                    assert(!holds_in(after, path@)) by {
                        assert forall|t: int| !is_at(after, path@, t) by {
                            if 0 <= t < after.len() {
                                assert(before[from(t)].0@ != before[k as int].0@);
                            }
                        }
                    }
                }
                Some(entry.1)
            },
            None => None,
        }
    }
}

/// Builds the table of deleted files.
pub struct BenchProvider;

impl BenchProvider {
    /// The empty table.
    pub fn invoke(&mut self) -> (bench: Bench)
        ensures
            bench.wf(),
            forall|path: Seq<char>| !bench.holds(path),
    {
        Bench::new()
    }
}

} // verus!
