//! The property map: a named, insertion-ordered mapping from property name
//! to field kind. Keys are unique, non-empty and in normal form; a repeated
//! name overwrites the kind in place (last write wins) and keeps the name's
//! original position.

use crate::models::Property;
use crate::text::spec_normalize;
use vstd::prelude::*;

verus! {

/// The entries as pairs of character sequence and kind.
pub open spec fn entry_views(entries: Seq<(String, Property)>) -> Seq<(Seq<char>, Property)> {
    entries.map_values(|e: (String, Property)| (e.0@, e.1))
}

/// Whether some entry carries the given name.
pub open spec fn has_key(s: Seq<(Seq<char>, Property)>, k: Seq<char>) -> bool {
    exists|i: int| 0 <= i < s.len() && s[i].0 == k
}

/// All entry names are distinct.
pub open spec fn unique_keys(s: Seq<(Seq<char>, Property)>) -> bool {
    forall|i: int, j: int| 0 <= i < j < s.len() ==> s[i].0 != s[j].0
}

/// The mapping an entry sequence represents, later entries winning.
pub open spec fn entries_as_map(s: Seq<(Seq<char>, Property)>) -> Map<Seq<char>, Property>
    decreases s.len(),
{
    if s.len() == 0 {
        Map::empty()
    } else {
        entries_as_map(s.drop_last()).insert(s.last().0, s.last().1)
    }
}

proof fn lemma_as_map_push(s: Seq<(Seq<char>, Property)>, k: Seq<char>, v: Property)
    ensures
        entries_as_map(s.push((k, v))) == entries_as_map(s).insert(k, v),
{
    let t = s.push((k, v));
    assert(t.drop_last() =~= s);
    assert(t.last() == (k, v));
}

proof fn lemma_as_map_update(s: Seq<(Seq<char>, Property)>, j: int, k: Seq<char>, v: Property)
    requires
        unique_keys(s),
        0 <= j < s.len(),
        s[j].0 == k,
    ensures
        entries_as_map(s.update(j, (k, v))) == entries_as_map(s).insert(k, v),
    decreases s.len(),
{
    let t = s.update(j, (k, v));
    if j == s.len() - 1 {
        assert(t.drop_last() =~= s.drop_last());
        assert(t.last() == (k, v));
        assert(entries_as_map(t) =~= entries_as_map(s).insert(k, v));
    } else {
        assert(t.drop_last() =~= s.drop_last().update(j, (k, v)));
        assert(t.last() == s.last());
        lemma_as_map_update(s.drop_last(), j, k, v);
        assert(s.last().0 != k);
        assert(entries_as_map(t) =~= entries_as_map(s).insert(k, v));
    }
}

/// A name is in the represented mapping exactly when some entry carries it.
pub proof fn lemma_has_key_dom(s: Seq<(Seq<char>, Property)>, k: Seq<char>)
    ensures
        has_key(s, k) <==> entries_as_map(s).dom().contains(k),
    decreases s.len(),
{
    if s.len() > 0 {
        lemma_has_key_dom(s.drop_last(), k);
        if has_key(s, k) {
            let i = choose|i: int| 0 <= i < s.len() && s[i].0 == k;
            if i < s.len() - 1 {
                assert(s.drop_last()[i].0 == k);
            }
        }
        if has_key(s.drop_last(), k) {
            let i = choose|i: int| 0 <= i < s.drop_last().len() && s.drop_last()[i].0 == k;
            assert(s[i].0 == k);
        }
    }
}

/// With distinct names the represented mapping is finite and exactly as
/// large as the entry sequence.
pub proof fn lemma_dom_size(s: Seq<(Seq<char>, Property)>)
    requires
        unique_keys(s),
    ensures
        entries_as_map(s).dom().finite(),
        entries_as_map(s).dom().len() == s.len(),
    decreases s.len(),
{
    if s.len() > 0 {
        assert(forall|i: int| 0 <= i < s.len() - 1 ==> s.drop_last()[i] == s[i]);
        lemma_dom_size(s.drop_last());
        lemma_has_key_dom(s.drop_last(), s.last().0);
        assert(!has_key(s.drop_last(), s.last().0));
    }
}

/// An insertion-ordered property map.
pub struct PropertyMap {
    pub entries: Vec<(String, Property)>,
}

impl PropertyMap {
    /// The entries as character sequences, in insertion order.
    pub open spec fn view_entries(self) -> Seq<(Seq<char>, Property)> {
        entry_views(self.entries@)
    }

    /// The names, in insertion order.
    pub open spec fn keys(self) -> Seq<Seq<char>> {
        self.view_entries().map_values(|e: (Seq<char>, Property)| e.0)
    }

    /// The mapping this value represents.
    pub open spec fn as_map(self) -> Map<Seq<char>, Property> {
        entries_as_map(self.view_entries())
    }

    /// Well-formed: names are distinct, non-empty and in normal form.
    pub open spec fn wf(self) -> bool {
        &&& unique_keys(self.view_entries())
        &&& forall|i: int|
            0 <= i < self.view_entries().len() ==> {
                let k = #[trigger] self.view_entries()[i].0;
                k.len() > 0 && spec_normalize(k) == k
            }
    }

    /// An empty property map.
    pub fn new() -> (r: PropertyMap)
        ensures
            r.wf(),
            r.view_entries() == Seq::<(Seq<char>, Property)>::empty(),
            r.as_map() == Map::<Seq<char>, Property>::empty(),
    {
        let r = PropertyMap { entries: Vec::new() };
        proof {
            assert(r.view_entries() =~= Seq::<(Seq<char>, Property)>::empty());
        }
        r
    }

    /// How many properties the map holds.
    pub fn len(&self) -> (r: usize)
        ensures
            r == self.view_entries().len(),
            self.wf() ==> r == self.as_map().dom().len(),
    {
        proof {
            if self.wf() {
                lemma_dom_size(self.view_entries());
            }
        }
        self.entries.len()
    }

    /// Inserts a property. A fresh name is appended; a repeated name keeps
    /// its position and takes the new kind (last write wins).
    pub fn insert(&mut self, key: String, kind: Property)
        requires
            old(self).wf(),
            key@.len() > 0,
            spec_normalize(key@) == key@,
        ensures
            final(self).wf(),
            final(self).as_map() == old(self).as_map().insert(key@, kind),
            has_key(old(self).view_entries(), key@) ==> final(self).keys() == old(self).keys(),
            !has_key(old(self).view_entries(), key@) ==> final(self).keys() == old(
                self,
            ).keys().push(key@),
            final(self).view_entries().len() == old(self).view_entries().len() + (
            if has_key(old(self).view_entries(), key@) {
                0int
            } else {
                1int
            }),
    {
        let ghost s0 = self.view_entries();
        let mut j: usize = 0;
        let n = self.entries.len();
        while j < n
            invariant
                n == self.entries@.len(),
                0 <= j <= n,
                *self == *old(self),
                s0 == self.view_entries(),
                old(self).wf(),
                key@.len() > 0,
                spec_normalize(key@) == key@,
                forall|k: int| 0 <= k < j ==> self.view_entries()[k].0 != key@,
            decreases n - j,
        {
            if self.entries[j].0 == key {
                let ghost jj = j as int;
                proof {
                    assert(s0.len() == self.entries@.len());
                    assert(self.entries@[jj].0@ == key@);
                    assert(s0[jj].0 == key@);
                }
                let ghost pre = self.entries@;
                self.entries.remove(j);
                self.entries.insert(j, (key, kind));
                proof {
                    assert(self.entries@ =~= pre.update(jj, (key, kind)));
                    assert(self.view_entries() =~= s0.update(jj, (key@, kind)));
                    lemma_as_map_update(s0, jj, key@, kind);
                    assert(self.keys() =~= old(self).keys());
                    assert(has_key(s0, key@));
                }
                return ;
            }
            j += 1;
        }
        self.entries.push((key, kind));
        proof {
            assert(self.view_entries() =~= s0.push((key@, kind)));
            lemma_as_map_push(s0, key@, kind);
            assert(self.keys() =~= old(self).keys().push(key@));
            assert(!has_key(s0, key@));
        }
    }

    /// The kind stored under a name, if the name is present.
    pub fn get(&self, key: &String) -> (r: Option<Property>)
        requires
            self.wf(),
        ensures
            match r {
                Some(v) => self.as_map().dom().contains(key@) && self.as_map()[key@] == v,
                None => !self.as_map().dom().contains(key@),
            },
    {
        proof {
            lemma_has_key_dom(self.view_entries(), key@);
        }
        let n = self.entries.len();
        let mut j: usize = 0;
        while j < n
            invariant
                self.wf(),
                n == self.entries@.len(),
                0 <= j <= n,
                forall|k: int| 0 <= k < j ==> self.view_entries()[k].0 != key@,
            decreases n - j,
        {
            if self.entries[j].0 == *key {
                proof {
                    lemma_key_at_index(self.view_entries(), j as int);
                }
                return Some(self.entries[j].1);
            }
            j += 1;
        }
        None
    }
}

proof fn lemma_key_at_index(s: Seq<(Seq<char>, Property)>, j: int)
    requires
        unique_keys(s),
        0 <= j < s.len(),
    ensures
        entries_as_map(s).dom().contains(s[j].0),
        entries_as_map(s)[s[j].0] == s[j].1,
    decreases s.len(),
{
    if j == s.len() - 1 {
    } else {
        lemma_key_at_index(s.drop_last(), j);
        assert(s.last().0 != s[j].0);
    }
}

} // verus!
