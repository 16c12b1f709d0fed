//! The document store: the table from document URI to the latest snapshot.
//! An entry is inserted on open, wholly replaced on change, and read on
//! hover; there is at most one entry per URI. Abstractly the store is the
//! map from URI bytes to the stored document's source bytes.

use vstd::prelude::*;

use crate::utils::{bytes_eq, Document};

verus! {

/// The map a list of entries stands for: later entries win, though the
/// store's invariant keeps keys unique anyway.
spec fn entries_map(s: Seq<(Vec<u8>, Document)>) -> Map<Seq<u8>, Seq<u8>>
    decreases s.len(),
{
    if s.len() == 0 {
        Map::empty()
    } else {
        entries_map(s.drop_last()).insert(s.last().0@, s.last().1@)
    }
}

proof fn lemma_entries_map_domain(s: Seq<(Vec<u8>, Document)>, k: Seq<u8>)
    ensures
        entries_map(s).contains_key(k) <==> exists|i: int|
            0 <= i < s.len() && (#[trigger] s[i]).0@ == k,
    decreases s.len(),
{
    if s.len() > 0 {
        lemma_entries_map_domain(s.drop_last(), k);
        if entries_map(s).contains_key(k) {
            if k == s.last().0@ {
                assert(s[s.len() - 1].0@ == k);
            } else {
                let i = choose|i: int| 0 <= i < s.drop_last().len() && (#[trigger] s.drop_last()[i]).0@ == k;
                assert(s[i].0@ == k);
            }
        }
        if exists|i: int| 0 <= i < s.len() && (#[trigger] s[i]).0@ == k {
            let i = choose|i: int| 0 <= i < s.len() && (#[trigger] s[i]).0@ == k;
            if i < s.len() - 1 {
                assert(s.drop_last()[i].0@ == k);
            }
        }
    }
}

spec fn keys_unique(s: Seq<(Vec<u8>, Document)>) -> bool {
    forall|i: int, j: int|
        0 <= i < j < s.len() ==> (#[trigger] s[i]).0@ != (#[trigger] s[j]).0@
}

proof fn lemma_entries_map_at(s: Seq<(Vec<u8>, Document)>, i: int)
    requires
        keys_unique(s),
        0 <= i < s.len(),
    ensures
        entries_map(s).contains_key(s[i].0@),
        entries_map(s)[s[i].0@] == s[i].1@,
    decreases s.len(),
{
    if i < s.len() - 1 {
        assert(s.drop_last()[i] == s[i]);
        lemma_entries_map_at(s.drop_last(), i);
        assert(s[i].0@ != s.last().0@);
    }
}

proof fn lemma_entries_map_update(s: Seq<(Vec<u8>, Document)>, i: int, p: (Vec<u8>, Document))
    requires
        keys_unique(s),
        0 <= i < s.len(),
        p.0@ == s[i].0@,
    ensures
        entries_map(s.update(i, p)) == entries_map(s).insert(p.0@, p.1@),
    decreases s.len(),
{
    let t = s.update(i, p);
    if i == s.len() - 1 {
        assert(t.drop_last() =~= s.drop_last());
        assert(t.last() == p);
        assert(entries_map(s).insert(p.0@, p.1@) =~= entries_map(s.drop_last()).insert(
            p.0@,
            p.1@,
        ));
    } else {
        assert(t.drop_last() =~= s.drop_last().update(i, p));
        assert(t.last() == s.last());
        assert(s.drop_last()[i] == s[i]);
        lemma_entries_map_update(s.drop_last(), i, p);
        assert(p.0@ != s.last().0@);
        assert(entries_map(s.drop_last()).insert(p.0@, p.1@).insert(s.last().0@, s.last().1@)
            =~= entries_map(s.drop_last()).insert(s.last().0@, s.last().1@).insert(p.0@, p.1@));
    }
}

proof fn lemma_entries_map_push(s: Seq<(Vec<u8>, Document)>, p: (Vec<u8>, Document))
    ensures
        entries_map(s.push(p)) == entries_map(s).insert(p.0@, p.1@),
{
    assert(s.push(p).drop_last() =~= s);
    assert(s.push(p).last() == p);
}

proof fn lemma_entries_map_remove(s: Seq<(Vec<u8>, Document)>, i: int)
    requires
        keys_unique(s),
        0 <= i < s.len(),
    ensures
        entries_map(s.remove(i)) == entries_map(s).remove(s[i].0@),
    decreases s.len(),
{
    let k = s[i].0@;
    if i == s.len() - 1 {
        assert(s.remove(i) =~= s.drop_last());
        lemma_entries_map_domain(s.drop_last(), k);
        assert(forall|j: int|
            0 <= j < s.drop_last().len() ==> (#[trigger] s.drop_last()[j]).0@ != k);
        assert(entries_map(s.drop_last()).remove(k) =~= entries_map(s.drop_last()));
        assert(entries_map(s).remove(k) =~= entries_map(s.drop_last()).insert(k, s.last().1@).remove(
            k,
        ));
        assert(entries_map(s.drop_last()).insert(k, s.last().1@).remove(k) =~= entries_map(
            s.drop_last(),
        ).remove(k));
    } else {
        let t = s.remove(i);
        assert(t.drop_last() =~= s.drop_last().remove(i));
        assert(t.last() == s.last());
        assert(s.drop_last()[i] == s[i]);
        lemma_entries_map_remove(s.drop_last(), i);
        assert(k != s.last().0@);
        assert(entries_map(s.drop_last()).remove(k).insert(s.last().0@, s.last().1@) =~= entries_map(
            s.drop_last(),
        ).insert(s.last().0@, s.last().1@).remove(k));
    }
}

/// The table from open document URIs to their latest snapshots.
pub struct DocumentStore {
    entries: Vec<(Vec<u8>, Document)>,
}

impl View for DocumentStore {
    type V = Map<Seq<u8>, Seq<u8>>;

    closed spec fn view(&self) -> Map<Seq<u8>, Seq<u8>> {
        entries_map(self.entries@)
    }
}

impl DocumentStore {
    #[verifier::type_invariant]
    spec fn wf(self) -> bool {
        keys_unique(self.entries@)
    }

    pub fn new() -> (r: DocumentStore)
        ensures
            r@ == Map::<Seq<u8>, Seq<u8>>::empty(),
    {
        DocumentStore { entries: Vec::new() }
    }

    /// Inserts or wholly replaces the entry for `uri` with the snapshot.
    pub fn put(&mut self, uri: Vec<u8>, document: Document)
        ensures
            final(self)@ == old(self)@.insert(uri@, document@),
    {
        proof {
            use_type_invariant(&*self);
        }
        let mut entries: Vec<(Vec<u8>, Document)> = Vec::new();
        core::mem::swap(&mut entries, &mut self.entries);
        let ghost s0 = entries@;
        let mut i: usize = 0;
        let mut found = false;
        while i < entries.len() && !found
            invariant
                entries@ == s0,
                keys_unique(s0),
                i <= s0.len(),
                found ==> i >= 1 && s0[i - 1].0@ == uri@,
                forall|j: int| 0 <= j < i && (found ==> j < i - 1) ==> (#[trigger] s0[j]).0@ != uri@,
            decreases s0.len() - i,
        {
            if bytes_eq(entries[i].0.as_slice(), uri.as_slice()) {
                found = true;
            }
            i = i + 1;
        }
        if found {
            let at = i - 1;
            entries.remove(at);
            entries.insert(at, (uri, document));
            proof {
                assert(entries@ =~= s0.update(at as int, entries@[at as int]));
                lemma_entries_map_update(s0, at as int, entries@[at as int]);
                assert(keys_unique(entries@));
            }
        } else {
            entries.push((uri, document));
            proof {
                lemma_entries_map_push(s0, entries@.last());
                assert(keys_unique(entries@));
            }
        }
        self.entries = entries;
    }

    /// Removes the entry for `uri`, if any.
    pub fn remove(&mut self, uri: &Vec<u8>)
        ensures
            final(self)@ == old(self)@.remove(uri@),
    {
        proof {
            use_type_invariant(&*self);
        }
        let mut entries: Vec<(Vec<u8>, Document)> = Vec::new();
        core::mem::swap(&mut entries, &mut self.entries);
        let ghost s0 = entries@;
        let mut i: usize = 0;
        let mut found = false;
        while i < entries.len() && !found
            invariant
                entries@ == s0,
                keys_unique(s0),
                i <= s0.len(),
                found ==> i >= 1 && s0[i - 1].0@ == uri@,
                forall|j: int| 0 <= j < i && (found ==> j < i - 1) ==> (#[trigger] s0[j]).0@ != uri@,
            decreases s0.len() - i,
        {
            if bytes_eq(entries[i].0.as_slice(), uri.as_slice()) {
                found = true;
            }
            i = i + 1;
        }
        if found {
            let at = i - 1;
            entries.remove(at);
            proof {
                lemma_entries_map_remove(s0, at as int);
                assert(keys_unique(entries@));
            }
        } else {
            proof {
                lemma_entries_map_domain(s0, uri@);
                assert(entries_map(s0).remove(uri@) =~= entries_map(s0));
            }
        }
        self.entries = entries;
    }

    /// The latest snapshot stored for `uri`, or None when the document was
    /// never opened.
    pub fn get(&self, uri: &Vec<u8>) -> (r: Option<&Document>)
        ensures
            match r {
                Some(document) => self@.contains_key(uri@) && document@ == self@[uri@],
                None => !self@.contains_key(uri@),
            },
    {
        proof {
            use_type_invariant(&*self);
        }
        let mut i: usize = 0;
        while i < self.entries.len()
            invariant
                keys_unique(self.entries@),
                i <= self.entries@.len(),
                forall|j: int| 0 <= j < i ==> (#[trigger] self.entries@[j]).0@ != uri@,
            decreases self.entries@.len() - i,
        {
            if bytes_eq(self.entries[i].0.as_slice(), uri.as_slice()) {
                proof {
                    lemma_entries_map_at(self.entries@, i as int);
                }
                return Some(&self.entries[i].1);
            }
            i = i + 1;
        }
        proof {
            lemma_entries_map_domain(self.entries@, uri@);
        }
        None
    }
}

} // verus!
