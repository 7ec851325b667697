//! Geofence overrides: per key fingerprint, the instant of a first attempt
//! made from outside the geofence.

use vstd::prelude::*;
use crate::time::Timestamp;

verus! {

/// A map from key fingerprints to the instant of their first attempt from
/// outside the geofence, kept as a list of entries in which each
/// fingerprint occurs once; every instant is a representable non-leap
/// instant. It stands for the `HashMap<String, DateTime<Utc>>` that the
/// state file holds: with `String` keys, vstd's specification of
/// `HashMap` proves nothing about lookups, so the map is held as a `Vec`
/// whose view is a `Map` and whose distinct keys are its type invariant.
#[derive(Debug)]
pub struct OverrideTable {
    entries: Vec<(String, Timestamp)>,
}

/// The map that a list of distinct entries holds.
pub open spec fn entries_map(entries: Seq<(String, Timestamp)>) -> Map<Seq<char>, Timestamp>
    decreases entries.len(),
{
    if entries.len() == 0 {
        Map::empty()
    } else {
        entries_map(entries.drop_last()).insert(entries.last().0@, entries.last().1)
    }
}

pub open spec fn distinct_keys(entries: Seq<(String, Timestamp)>) -> bool {
    forall|i: int, j: int|
        0 <= i < entries.len() && 0 <= j < entries.len() && i != j ==> entries[i].0@
            != entries[j].0@
}

/// The entries of `m` whose instant lies strictly after `cutoff`.
pub open spec fn kept_after(m: Map<Seq<char>, Timestamp>, cutoff: Timestamp) -> Map<
    Seq<char>,
    Timestamp,
> {
    Map::new(|k: Seq<char>| m.dom().contains(k) && cutoff.precedes(m[k]), |k: Seq<char>| m[k])
}

pub open spec fn all_instants_wf(m: Map<Seq<char>, Timestamp>) -> bool {
    forall|k: Seq<char>| m.dom().contains(k) ==> #[trigger] m[k].wf()
}

proof fn lemma_entries_map(entries: Seq<(String, Timestamp)>)
    requires
        distinct_keys(entries),
    ensures
        entries_map(entries).dom().finite(),
        forall|k: Seq<char>|
            entries_map(entries).dom().contains(k) <==> exists|i: int|
                0 <= i < entries.len() && #[trigger] entries[i].0@ == k,
        forall|i: int|
            0 <= i < entries.len() ==> #[trigger] entries_map(entries)[entries[i].0@]
                == entries[i].1,
    decreases entries.len(),
{
    if entries.len() > 0 {
        let rest = entries.drop_last();
        assert(distinct_keys(rest));
        lemma_entries_map(rest);
        let m = entries_map(entries);
        assert forall|k: Seq<char>|
            m.dom().contains(k) <==> exists|i: int|
                0 <= i < entries.len() && #[trigger] entries[i].0@ == k by {
            if m.dom().contains(k) {
                if k == entries.last().0@ {
                    assert(entries[entries.len() - 1].0@ == k);
                } else {
                    let i = choose|i: int| 0 <= i < rest.len() && #[trigger] rest[i].0@ == k;
                    assert(entries[i].0@ == k);
                }
            }
            if exists|i: int| 0 <= i < entries.len() && #[trigger] entries[i].0@ == k {
                let i = choose|i: int| 0 <= i < entries.len() && #[trigger] entries[i].0@ == k;
                if i < entries.len() - 1 {
                    assert(rest[i].0@ == k);
                }
            }
        }
        assert forall|i: int| 0 <= i < entries.len() implies #[trigger] m[entries[i].0@]
            == entries[i].1 by {
            if i < entries.len() - 1 {
                assert(rest[i] == entries[i]);
                assert(entries[i].0@ != entries.last().0@);
            }
        }
    }
}

/// The entries whose instant lies strictly after `cutoff`, in order.
pub open spec fn entries_after(entries: Seq<(String, Timestamp)>, cutoff: Timestamp) -> Seq<
    (String, Timestamp),
>
    decreases entries.len(),
{
    if entries.len() == 0 {
        Seq::empty()
    } else {
        let rest = entries_after(entries.drop_last(), cutoff);
        if cutoff.precedes(entries.last().1) {
            rest.push(entries.last())
        } else {
            rest
        }
    }
}

proof fn lemma_entries_after(entries: Seq<(String, Timestamp)>, cutoff: Timestamp)
    requires
        distinct_keys(entries),
    ensures
        distinct_keys(entries_after(entries, cutoff)),
        forall|i: int|
            0 <= i < entries_after(entries, cutoff).len() ==> exists|j: int|
                0 <= j < entries.len() && #[trigger] entries[j] == #[trigger] entries_after(
                    entries,
                    cutoff,
                )[i],
        entries_map(entries_after(entries, cutoff)) == kept_after(entries_map(entries), cutoff),
    decreases entries.len(),
{
    if entries.len() > 0 {
        let rest = entries.drop_last();
        let x = entries.last();
        assert(distinct_keys(rest));
        lemma_entries_after(rest, cutoff);
        lemma_entries_map(rest);
        let fr = entries_after(rest, cutoff);
        let f = entries_after(entries, cutoff);
        assert forall|j: int| 0 <= j < rest.len() implies rest[j].0@ != x.0@ by {
            assert(rest[j] == entries[j]);
        }
        assert(!entries_map(rest).dom().contains(x.0@));
        assert forall|i: int| 0 <= i < f.len() implies exists|j: int|
            0 <= j < entries.len() && #[trigger] entries[j] == #[trigger] f[i] by {
            if i < fr.len() {
                assert(f[i] == fr[i]);
                let j = choose|j: int| 0 <= j < rest.len() && #[trigger] rest[j] == #[trigger] fr[i];
                assert(entries[j] == rest[j]);
            } else {
                assert(f[i] == x);
                assert(entries[entries.len() - 1] == x);
            }
        }
        assert forall|a: int, b: int|
            0 <= a < f.len() && 0 <= b < f.len() && a != b implies f[a].0@ != f[b].0@ by {
            if a < fr.len() && b < fr.len() {
                assert(f[a] == fr[a] && f[b] == fr[b]);
            } else if a < fr.len() {
                assert(f[a] == fr[a]);
                let j = choose|j: int| 0 <= j < rest.len() && #[trigger] rest[j] == #[trigger] fr[a];
            } else {
                assert(f[b] == fr[b]);
                let j = choose|j: int| 0 <= j < rest.len() && #[trigger] rest[j] == #[trigger] fr[b];
            }
        }
        let m = entries_map(rest);
        if cutoff.precedes(x.1) {
            assert(f.drop_last() =~= fr);
            assert(kept_after(m.insert(x.0@, x.1), cutoff) =~= kept_after(m, cutoff).insert(x.0@, x.1));
        } else {
            assert(kept_after(m.insert(x.0@, x.1), cutoff) =~= kept_after(m, cutoff));
        }
    }
}

impl View for OverrideTable {
    type V = Map<Seq<char>, Timestamp>;

    closed spec fn view(&self) -> Map<Seq<char>, Timestamp> {
        entries_map(self.entries@)
    }
}

impl OverrideTable {
    #[verifier::type_invariant]
    spec fn inv(self) -> bool {
        &&& distinct_keys(self.entries@)
        &&& forall|i: int| 0 <= i < self.entries@.len() ==> #[trigger] self.entries@[i].1.wf()
    }

    /// An empty table.
    pub fn new() -> (r: OverrideTable)
        ensures
            r@ == Map::<Seq<char>, Timestamp>::empty(),
    {
        OverrideTable { entries: Vec::new() }
    }

    fn position(&self, fingerprint: &str) -> (r: Option<usize>)
        ensures
            match r {
                Some(i) => i < self.entries@.len() && self.entries@[i as int].0@ == fingerprint@,
                None => forall|i: int|
                    0 <= i < self.entries@.len() ==> self.entries@[i].0@ != fingerprint@,
            },
    {
        let fp = fingerprint.to_owned();
        let mut i: usize = 0;
        while i < self.entries.len()
            invariant
                fp@ == fingerprint@,
                i <= self.entries@.len(),
                forall|j: int| 0 <= j < i ==> self.entries@[j].0@ != fingerprint@,
            decreases self.entries.len() - i,
        {
            if self.entries[i].0 == fp {
                return Some(i);
            }
            i = i + 1;
        }
        None
    }

    /// The instant recorded for `fingerprint`.
    pub fn get(&self, fingerprint: &str) -> (r: Option<Timestamp>)
        ensures
            r == (if self@.dom().contains(fingerprint@) {
                Some(self@[fingerprint@])
            } else {
                None
            }),
            r matches Some(t) ==> t.wf(),
    {
        proof {
            use_type_invariant(self);
            lemma_entries_map(self.entries@);
        }
        match self.position(fingerprint) {
            Some(i) => Some(self.entries[i].1),
            None => None,
        }
    }

    /// Forgets `fingerprint`.
    pub fn remove(&mut self, fingerprint: &str)
        ensures
            final(self)@ == old(self)@.remove(fingerprint@),
    {
        proof {
            use_type_invariant(&*self);
            lemma_entries_map(self.entries@);
        }
        match self.position(fingerprint) {
            Some(i) => {
                let ghost old_entries = self.entries@;
                let mut entries = Vec::new();
                std::mem::swap(&mut entries, &mut self.entries);
                entries.remove(i);
                let ghost new_entries = entries@;
                assert(new_entries =~= old_entries.remove(i as int));
                assert(distinct_keys(new_entries));
                assert forall|j: int| 0 <= j < new_entries.len() implies #[trigger] new_entries[j].1.wf() by {
                    if j < i {
                        assert(new_entries[j] == old_entries[j]);
                    } else {
                        assert(new_entries[j] == old_entries[j + 1]);
                    }
                }
                self.entries = entries;
                proof {
                    lemma_entries_map(new_entries);
                    assert forall|k: Seq<char>| #[trigger] entries_map(new_entries).dom().contains(k)
                        <==> old(self)@.remove(fingerprint@).dom().contains(k) by {
                        if entries_map(new_entries).dom().contains(k) {
                            let j = choose|j: int| 0 <= j < new_entries.len() && #[trigger] new_entries[j].0@ == k;
                            if j < i {
                                assert(old_entries[j].0@ == k);
                            } else {
                                assert(old_entries[j + 1].0@ == k);
                            }
                        }
                        if old(self)@.remove(fingerprint@).dom().contains(k) {
                            let j = choose|j: int| 0 <= j < old_entries.len() && #[trigger] old_entries[j].0@ == k;
                            if j < i {
                                assert(new_entries[j].0@ == k);
                            } else if j > i {
                                assert(new_entries[j - 1].0@ == k);
                            }
                        }
                    }
                    assert forall|k: Seq<char>| #[trigger] entries_map(new_entries).dom().contains(k)
                        implies entries_map(new_entries)[k] == old(self)@[k] by {
                        let j = choose|j: int| 0 <= j < new_entries.len() && #[trigger] new_entries[j].0@ == k;
                        if j < i {
                            assert(old_entries[j].0@ == k);
                        } else {
                            assert(old_entries[j + 1].0@ == k);
                        }
                    }
                    assert(entries_map(new_entries) =~= old(self)@.remove(fingerprint@));
                }
            },
            None => {
                assert(!old(self)@.dom().contains(fingerprint@));
                assert(old(self)@.remove(fingerprint@) =~= old(self)@);
            },
        }
    }

    /// Records `at` for `fingerprint`, replacing what was recorded.
    pub fn insert(&mut self, fingerprint: String, at: Timestamp)
        requires
            at.wf(),
        ensures
            final(self)@ == old(self)@.insert(fingerprint@, at),
    {
        self.remove(fingerprint.as_str());
        proof {
            use_type_invariant(&*self);
            lemma_entries_map(self.entries@);
        }
        let ghost before = self.entries@;
        let ghost key = fingerprint@;
        let mut entries = Vec::new();
        std::mem::swap(&mut entries, &mut self.entries);
        entries.push((fingerprint, at));
        assert(entries@.drop_last() =~= before);
        assert(distinct_keys(entries@)) by {
            assert(!entries_map(before).dom().contains(key));
            assert forall|i: int, j: int|
                0 <= i < entries@.len() && 0 <= j < entries@.len() && i != j implies entries@[i].0@
                != entries@[j].0@ by {
                if i < before.len() && j < before.len() {
                    assert(entries@[i] == before[i]);
                    assert(entries@[j] == before[j]);
                } else if i < before.len() {
                    assert(entries@[i] == before[i]);
                } else {
                    assert(entries@[j] == before[j]);
                }
            }
        }
        assert forall|i: int| 0 <= i < entries@.len() implies #[trigger] entries@[i].1.wf() by {
            if i < before.len() {
                assert(entries@[i] == before[i]);
            }
        }
        self.entries = entries;
    }

    /// Keeps the entries whose instant lies strictly after `cutoff`.
    pub fn retain_after(&mut self, cutoff: Timestamp)
        ensures
            final(self)@ == kept_after(old(self)@, cutoff),
    {
        proof {
            use_type_invariant(&*self);
        }
        let ghost orig = self.entries@;
        let mut src = Vec::new();
        std::mem::swap(&mut src, &mut self.entries);
        let mut out: Vec<(String, Timestamp)> = Vec::new();
        let ghost mut k: int = 0;
        while src.len() > 0
            invariant
                0 <= k <= orig.len(),
                src@ == orig.subrange(k, orig.len() as int),
                out@ == entries_after(orig.subrange(0, k), cutoff),
            decreases src.len(),
        {
            let entry = src.remove(0);
            assert(entry == orig[k]);
            assert(orig.subrange(0, k + 1).drop_last() =~= orig.subrange(0, k));
            if cutoff.is_before(&entry.1) {
                out.push(entry);
            }
            proof {
                k = k + 1;
            }
        }
        assert(orig.subrange(0, k) =~= orig);
        proof {
            lemma_entries_after(orig, cutoff);
        }
        self.entries = out;
    }

    /// The entries, one per fingerprint, in the table's order.
    pub fn to_entries(&self) -> (r: Vec<(String, Timestamp)>)
        ensures
            distinct_keys(r@),
            entries_map(r@) == self@,
    {
        proof {
            use_type_invariant(self);
        }
        let mut out: Vec<(String, Timestamp)> = Vec::new();
        let mut i: usize = 0;
        while i < self.entries.len()
            invariant
                i <= self.entries@.len(),
                out@ == self.entries@.subrange(0, i as int),
                distinct_keys(self.entries@),
            decreases self.entries.len() - i,
        {
            let e = (self.entries[i].0.clone(), self.entries[i].1);
            out.push(e);
            assert(out@ =~= self.entries@.subrange(0, i + 1));
            i = i + 1;
        }
        assert(out@ =~= self.entries@);
        out
    }

    /// Builds a table from entries; a later entry for a fingerprint replaces
    /// an earlier one, as collecting into a map does.
    pub fn from_entries(entries: Vec<(String, Timestamp)>) -> (r: OverrideTable)
        requires
            forall|i: int| 0 <= i < entries@.len() ==> #[trigger] entries@[i].1.wf(),
        ensures
            r@ == entries_map(entries@),
    {
        let ghost orig = entries@;
        let mut table = OverrideTable::new();
        let mut src = entries;
        let ghost mut k: int = 0;
        while src.len() > 0
            invariant
                0 <= k <= orig.len(),
                src@ == orig.subrange(k, orig.len() as int),
                forall|i: int| 0 <= i < orig.len() ==> #[trigger] orig[i].1.wf(),
                table@ == entries_map(orig.subrange(0, k)),
            decreases src.len(),
        {
            let (fp, at) = src.remove(0);
            assert(orig[k] == (fp, at));
            table.insert(fp, at);
            proof {
                assert(orig.subrange(0, k + 1).drop_last() =~= orig.subrange(0, k));
                k = k + 1;
            }
        }
        assert(orig.subrange(0, k) =~= orig);
        table
    }
}

} // verus!
