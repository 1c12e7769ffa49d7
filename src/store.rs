//! The cache store: a mapping from content hash to record, held as a list of
//! entries whose keys are unique.

use vstd::prelude::*;

use crate::record::{expired_at, CachedFile, RecordView};

verus! {

/// One stored entry: a content hash and its record.
pub type Entry = (String, CachedFile);

/// No two entries share a key.
pub open spec fn keys_unique(s: Seq<Entry>) -> bool {
    forall|i: int, j: int| 0 <= i < j < s.len() ==> s[i].0@ != s[j].0@
}

/// The mapping that a list of entries describes; a later entry for a key
/// replaces an earlier one.
pub open spec fn map_of_entries(s: Seq<Entry>) -> Map<Seq<char>, RecordView>
    decreases s.len(),
{
    if s.len() == 0 {
        Map::empty()
    } else {
        map_of_entries(s.drop_last()).insert(s.last().0@, s.last().1@)
    }
}

/// The records of `m` that are still trusted at `now`.
pub open spec fn unexpired(m: Map<Seq<char>, RecordView>, now: u64) -> Map<Seq<char>, RecordView> {
    Map::new(|k: Seq<char>| m.contains_key(k) && !expired_at(m[k].expires_at, now), |k: Seq<char>| m[k])
}

/// With unique keys, each entry is found under its key, every key comes from
/// an entry, and there are as many records as entries.
pub proof fn lemma_map_of_unique(s: Seq<Entry>)
    requires
        keys_unique(s),
    ensures
        forall|i: int|
            0 <= i < s.len() ==> #[trigger] map_of_entries(s).contains_key(s[i].0@)
                && map_of_entries(s)[s[i].0@] == s[i].1@,
        forall|k: Seq<char>|
            #[trigger] map_of_entries(s).contains_key(k) ==> exists|i: int|
                0 <= i < s.len() && (#[trigger] s[i]).0@ == k,
        map_of_entries(s).dom().finite(),
        map_of_entries(s).len() == s.len(),
    decreases s.len(),
{
    if s.len() > 0 {
        let p = s.drop_last();
        let n = s.len() - 1;
        assert(keys_unique(p));
        lemma_map_of_unique(p);
        let m = map_of_entries(p);
        assert forall|i: int| 0 <= i < s.len() implies #[trigger] map_of_entries(s).contains_key(s[i].0@)
            && map_of_entries(s)[s[i].0@] == s[i].1@ by {
            if i < n {
                assert(p[i] == s[i]);
                assert(s[i].0@ != s[n].0@);
            }
        }
        assert forall|k: Seq<char>| #[trigger] map_of_entries(s).contains_key(k) implies exists|i: int|
            0 <= i < s.len() && (#[trigger] s[i]).0@ == k by {
            if k == s[n].0@ {
                assert(s[n].0@ == k);
            } else {
                assert(m.contains_key(k));
                let j = choose|j: int| 0 <= j < p.len() && (#[trigger] p[j]).0@ == k;
                assert(s[j] == p[j]);
            }
        }
        assert(!m.contains_key(s[n].0@)) by {
            if m.contains_key(s[n].0@) {
                let j = choose|j: int| 0 <= j < p.len() && (#[trigger] p[j]).0@ == s[n].0@;
                assert(s[j] == p[j]);
            }
        }
    }
}

/// A list of unique entries that lists exactly the records of `m` describes `m`.
pub proof fn lemma_entries_determine_map(s: Seq<Entry>, m: Map<Seq<char>, RecordView>)
    requires
        keys_unique(s),
        forall|i: int| 0 <= i < s.len() ==> #[trigger] m.contains_key(s[i].0@) && m[s[i].0@] == s[i].1@,
        forall|k: Seq<char>| #[trigger] m.contains_key(k) ==> exists|i: int| 0 <= i < s.len() && (#[trigger] s[i]).0@ == k,
    ensures
        map_of_entries(s) == m,
{
    lemma_map_of_unique(s);
    let ms = map_of_entries(s);
    assert forall|k: Seq<char>| ms.contains_key(k) <==> m.contains_key(k) by {
        if ms.contains_key(k) {
            let i = choose|i: int| 0 <= i < s.len() && (#[trigger] s[i]).0@ == k;
            assert(m.contains_key(s[i].0@));
        }
        if m.contains_key(k) {
            let i = choose|i: int| 0 <= i < s.len() && (#[trigger] s[i]).0@ == k;
            assert(ms.contains_key(s[i].0@));
        }
    }
    assert forall|k: Seq<char>| #[trigger] ms.contains_key(k) implies ms[k] == m[k] by {
        let i = choose|i: int| 0 <= i < s.len() && (#[trigger] s[i]).0@ == k;
        assert(ms.contains_key(s[i].0@));
        assert(m.contains_key(s[i].0@));
    }
    assert(ms =~= m);
}

/// The hash-to-record mapping behind the cache.
#[derive(Debug)]
pub struct CacheData {
    files: Vec<Entry>,
}

impl View for CacheData {
    type V = Map<Seq<char>, RecordView>;

    closed spec fn view(&self) -> Map<Seq<char>, RecordView> {
        map_of_entries(self.files@)
    }
}

impl CacheData {
    #[verifier::type_invariant]
    spec fn inv(self) -> bool {
        keys_unique(self.files@)
    }

    /// An empty store.
    pub fn new() -> (r: CacheData)
        ensures
            r@ == Map::<Seq<char>, RecordView>::empty(),
    {
        CacheData { files: Vec::new() }
    }

    /// The number of records.
    pub fn len(&self) -> (r: usize)
        ensures
            r == self@.len(),
    {
        proof {
            use_type_invariant(self);
            lemma_map_of_unique(self.files@);
        }
        self.files.len()
    }

    /// The entries of the store, one per record, in no particular order.
    /// This is what gets persisted.
    pub fn entries(&self) -> (r: &[Entry])
        ensures
            keys_unique(r@),
            map_of_entries(r@) == self@,
    {
        proof {
            use_type_invariant(self);
        }
        self.files.as_slice()
    }

    /// The record stored under `hash`, if any.
    pub fn get(&self, hash: &String) -> (r: Option<&CachedFile>)
        ensures
            r is Some <==> self@.contains_key(hash@),
            r is Some ==> r->0@ == self@[hash@],
    {
        proof {
            use_type_invariant(self);
            lemma_map_of_unique(self.files@);
        }
        let mut i: usize = 0;
        while i < self.files.len()
            invariant
                i <= self.files@.len(),
                forall|j: int| 0 <= j < i ==> (#[trigger] self.files@[j]).0@ != hash@,
            decreases self.files@.len() - i,
        {
            if self.files[i].0.eq(hash) {
                proof {
                    use_type_invariant(self);
                    lemma_map_of_unique(self.files@);
                    assert(map_of_entries(self.files@).contains_key(self.files@[i as int].0@));
                }
                return Some(&self.files[i].1);
            }
            i = i + 1;
        }
        None
    }

    /// Stores `file` under `hash`, replacing any record stored there.
    pub fn put(&mut self, hash: String, file: CachedFile)
        ensures
            final(self)@ == old(self)@.insert(hash@, file@),
    {
        proof {
            use_type_invariant(&*self);
            lemma_map_of_unique(self.files@);
        }
        let mut files: Vec<Entry> = Vec::new();
        std::mem::swap(&mut self.files, &mut files);
        let ghost before = files@;
        let ghost key = hash@;
        let ghost value = file@;
        let mut i: usize = 0;
        while i < files.len()
            invariant
                files@ == before,
                key == hash@,
                value == file@,
                keys_unique(before),
                i <= before.len(),
                forall|j: int| 0 <= j < i ==> (#[trigger] before[j]).0@ != key,
            ensures
                i < before.len() ==> before[i as int].0@ == key,
            decreases before.len() - i,
        {
            if files[i].0.eq(&hash) {
                break;
            }
            i = i + 1;
        }
        if i < files.len() {
            files.set(i, (hash, file));
            proof {
                let after = files@;
                let m = map_of_entries(before).insert(key, value);
                lemma_map_of_unique(before);
                assert forall|a: int, b: int| 0 <= a < b < after.len() implies after[a].0@ != after[b].0@ by {
                    assert(before[a].0@ != before[b].0@);
                }
                assert forall|j: int| 0 <= j < after.len() implies #[trigger] m.contains_key(after[j].0@)
                    && m[after[j].0@] == after[j].1@ by {
                    if j != i {
                        assert(before[j].0@ != before[i as int].0@);
                        assert(after[j] == before[j]);
                        assert(map_of_entries(before).contains_key(before[j].0@));
                    } else {
                        assert(after[j].0@ == key);
                        assert(after[j].1@ == value);
                    }
                }
                assert forall|k: Seq<char>| #[trigger] m.contains_key(k) implies exists|j: int|
                    0 <= j < after.len() && (#[trigger] after[j]).0@ == k by {
                    if k == key {
                        assert(after[i as int].0@ == k);
                    } else {
                        let j = choose|j: int| 0 <= j < before.len() && (#[trigger] before[j]).0@ == k;
                        assert(after[j] == before[j]);
                    }
                }
                lemma_entries_determine_map(after, m);
            }
        } else {
            files.push((hash, file));
            proof {
                let after = files@;
                assert(after.drop_last() == before);
                assert forall|a: int, b: int| 0 <= a < b < after.len() implies after[a].0@ != after[b].0@ by {
                    if b < before.len() {
                        assert(before[a].0@ != before[b].0@);
                    } else {
                        assert(before[a].0@ != key);
                    }
                }
            }
        }
        self.files = files;
    }

    /// Removes every record that is stale at `now` and returns how many
    /// were removed.
    pub fn sweep_expired(&mut self, now: u64) -> (removed: usize)
        ensures
            final(self)@ == unexpired(old(self)@, now),
            removed == old(self)@.len() - final(self)@.len(),
    {
        proof {
            use_type_invariant(&*self);
            lemma_map_of_unique(self.files@);
        }
        let ghost before = self.files@;
        let ghost mut src: Seq<int> = Seq::empty();
        let mut kept: Vec<Entry> = Vec::new();
        let mut i: usize = 0;
        while i < self.files.len()
            invariant
                self.files@ == before,
                keys_unique(before),
                i <= before.len(),
                kept@.len() == src.len(),
                kept@.len() <= i,
                forall|t: int|
                    0 <= t < src.len() ==> 0 <= #[trigger] src[t] < i && kept@[t].0@ == before[src[t]].0@
                        && kept@[t].1@ == before[src[t]].1@ && !expired_at(before[src[t]].1.expires_at, now),
                forall|j: int|
                    0 <= j < i && !expired_at((#[trigger] before[j]).1.expires_at, now) ==> exists|t: int|
                        0 <= t < src.len() && #[trigger] src[t] == j,
                keys_unique(kept@),
            decreases before.len() - i,
        {
            if !self.files[i].1.is_expired_at(now) {
                let entry = (self.files[i].0.clone(), self.files[i].1.clone());
                let ghost prev = kept@;
                let ghost prev_src = src;
                kept.push(entry);
                proof {
                    src = src.push(i as int);
                    assert forall|a: int, b: int| 0 <= a < b < kept@.len() implies kept@[a].0@ != kept@[b].0@ by {
                        if b < prev.len() {
                            assert(prev[a].0@ != prev[b].0@);
                        } else {
                            assert(prev_src[a] < i);
                            assert(prev_src[a] == src[a]);
                            assert(before[src[a]].0@ != before[i as int].0@);
                        }
                    }
                    assert forall|j: int|
                        0 <= j < i + 1 && !expired_at((#[trigger] before[j]).1.expires_at, now) implies exists|t: int|
                            0 <= t < src.len() && #[trigger] src[t] == j by {
                        if j == i {
                            assert(src[src.len() - 1] == j);
                        } else {
                            let t = choose|t: int| 0 <= t < prev_src.len() && #[trigger] prev_src[t] == j;
                            assert(src[t] == j);
                        }
                    }
                }
            }
            i = i + 1;
        }
        proof {
            let m = unexpired(map_of_entries(before), now);
            lemma_map_of_unique(before);
            assert forall|t: int| 0 <= t < kept@.len() implies #[trigger] m.contains_key(kept@[t].0@)
                && m[kept@[t].0@] == kept@[t].1@ by {
                assert(0 <= src[t] < before.len());
                assert(map_of_entries(before).contains_key(before[src[t]].0@));
            }
            assert forall|k: Seq<char>| #[trigger] m.contains_key(k) implies exists|t: int|
                0 <= t < kept@.len() && (#[trigger] kept@[t]).0@ == k by {
                let j = choose|j: int| 0 <= j < before.len() && (#[trigger] before[j]).0@ == k;
                assert(map_of_entries(before).contains_key(before[j].0@));
                assert(!expired_at(before[j].1.expires_at, now));
                let t = choose|t: int| 0 <= t < src.len() && #[trigger] src[t] == j;
                assert(kept@[t].0@ == k);
            }
            lemma_entries_determine_map(kept@, m);
            lemma_map_of_unique(kept@);
        }
        let removed = self.files.len() - kept.len();
        self.files = kept;
        removed
    }

    /// Builds a store from persisted entries; where two entries share a key,
    /// the later one wins.
    pub fn from_entries(entries: Vec<Entry>) -> (r: CacheData)
        ensures
            r@ == map_of_entries(entries@),
    {
        let mut data = CacheData::new();
        let mut i: usize = 0;
        while i < entries.len()
            invariant
                i <= entries@.len(),
                data@ == map_of_entries(entries@.take(i as int)),
            decreases entries@.len() - i,
        {
            let hash = entries[i].0.clone();
            let file = entries[i].1.clone();
            data.put(hash, file);
            assert(entries@.take(i + 1).drop_last() == entries@.take(i as int));
            i = i + 1;
        }
        assert(entries@.take(i as int) == entries@);
        data
    }
}

impl Default for CacheData {
    fn default() -> (r: CacheData)
        ensures
            r@ == Map::<Seq<char>, RecordView>::empty(),
    {
        CacheData::new()
    }
}

/// Two entry lists hold the same entries, possibly in another order.
pub open spec fn same_entries(a: Seq<Entry>, b: Seq<Entry>) -> bool {
    &&& forall|i: int| 0 <= i < a.len() ==> exists|j: int|
        0 <= j < b.len() && (#[trigger] b[j]).0@ == (#[trigger] a[i]).0@ && b[j].1@ == a[i].1@
    &&& forall|j: int| 0 <= j < b.len() ==> exists|i: int|
        0 <= i < a.len() && (#[trigger] a[i]).0@ == (#[trigger] b[j]).0@ && a[i].1@ == b[j].1@
}

/// Saving a store and loading the document back yields the same records,
/// whatever order the document lists its entries in: `saved` is what
/// [`CacheData::entries`] hands out for persisting, `loaded` what comes back
/// to [`CacheData::from_entries`].
pub proof fn lemma_round_trip(d: Map<Seq<char>, RecordView>, saved: Seq<Entry>, loaded: Seq<Entry>)
    requires
        keys_unique(saved),
        keys_unique(loaded),
        map_of_entries(saved) == d,
        same_entries(saved, loaded),
    ensures
        map_of_entries(loaded) == d,
{
    lemma_map_of_unique(saved);
    assert forall|t: int| 0 <= t < loaded.len() implies #[trigger] d.contains_key(loaded[t].0@)
        && d[loaded[t].0@] == loaded[t].1@ by {
        let i = choose|i: int| 0 <= i < saved.len() && (#[trigger] saved[i]).0@ == (#[trigger] loaded[t]).0@
            && saved[i].1@ == loaded[t].1@;
        assert(d.contains_key(saved[i].0@));
    }
    assert forall|k: Seq<char>| #[trigger] d.contains_key(k) implies exists|t: int|
        0 <= t < loaded.len() && (#[trigger] loaded[t]).0@ == k by {
        let i = choose|i: int| 0 <= i < saved.len() && (#[trigger] saved[i]).0@ == k;
        let t = choose|t: int| 0 <= t < loaded.len() && (#[trigger] loaded[t]).0@ == (#[trigger] saved[i]).0@
            && loaded[t].1@ == saved[i].1@;
    }
    lemma_entries_determine_map(loaded, d);
}

/// After a sweep at `now`, the persisted document lists exactly the records
/// that were not stale at `now`: no stale record is left in it, and no
/// record that was still trusted is lost.
pub proof fn lemma_swept_document(before: Map<Seq<char>, RecordView>, now: u64, doc: Seq<Entry>)
    requires
        keys_unique(doc),
        map_of_entries(doc) == unexpired(before, now),
    ensures
        forall|i: int| 0 <= i < doc.len() ==> !expired_at((#[trigger] doc[i]).1.expires_at, now)
            && before.contains_key(doc[i].0@) && before[doc[i].0@] == doc[i].1@,
        forall|k: Seq<char>| #[trigger] before.contains_key(k) && !expired_at(before[k].expires_at, now)
            ==> exists|i: int| 0 <= i < doc.len() && (#[trigger] doc[i]).0@ == k,
{
    lemma_map_of_unique(doc);
    assert forall|i: int| 0 <= i < doc.len() implies !expired_at((#[trigger] doc[i]).1.expires_at, now)
        && before.contains_key(doc[i].0@) && before[doc[i].0@] == doc[i].1@ by {
        assert(map_of_entries(doc).contains_key(doc[i].0@));
    }
    assert forall|k: Seq<char>| #[trigger] before.contains_key(k) && !expired_at(before[k].expires_at, now)
        implies exists|i: int| 0 <= i < doc.len() && (#[trigger] doc[i]).0@ == k by {
        assert(map_of_entries(doc).contains_key(k));
    }
}

} // verus!
