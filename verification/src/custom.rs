//! Free-form key/value data attached to events and configurations.

use vstd::prelude::*;

verus! {

/// `serde_json::Value`, carried through the library without being inspected.
#[verifier::external_type_specification]
#[verifier::external_body]
pub struct ExJsonValue(serde_json::Value);

/// Calls `<serde_json::Value as Clone>::clone`. The impl is derived, so the
/// copy is the same JSON value as `value`.
#[verifier::external_body]
fn clone_value(value: &serde_json::Value) -> (copy: serde_json::Value)
    ensures
        copy == *value,
{
    value.clone()
}

/// The keys of a list of entries, as character sequences.
pub open spec fn keys_of(entries: Seq<(String, serde_json::Value)>) -> Seq<Seq<char>> {
    entries.map_values(|e: (String, serde_json::Value)| e.0@)
}

/// A mapping from unique string keys to JSON values.
///
/// Entries are kept in the order in which their keys were first inserted.
/// The order carries no meaning: the view is a plain map.
pub struct CustomMap {
    entries: Vec<(String, serde_json::Value)>,
}

impl View for CustomMap {
    type V = Map<Seq<char>, serde_json::Value>;

    closed spec fn view(&self) -> Map<Seq<char>, serde_json::Value> {
        Map::new(
            |k: Seq<char>| keys_of(self.entries@).contains(k),
            |k: Seq<char>| self.entries@[keys_of(self.entries@).index_of(k)].1,
        )
    }
}

impl CustomMap {
    /// No key occurs twice.
    #[verifier::type_invariant]
    spec fn inv(&self) -> bool {
        keys_of(self.entries@).no_duplicates()
    }

    /// The entries in storage order, each as key and value.
    pub closed spec fn listing(&self) -> Seq<(Seq<char>, serde_json::Value)> {
        self.entries@.map_values(|e: (String, serde_json::Value)| (e.0@, e.1))
    }

    /// An empty map.
    pub fn new() -> (m: CustomMap)
        ensures
            m@ == Map::<Seq<char>, serde_json::Value>::empty(),
    {
        let m = CustomMap { entries: Vec::new() };
        assert(m@ =~= Map::<Seq<char>, serde_json::Value>::empty());
        m
    }

    /// Number of entries.
    pub fn len(&self) -> (n: usize)
        ensures
            self@.dom().finite(),
            n == self@.dom().len(),
            n == self.listing().len(),
    {
        proof {
            use_type_invariant(self);
            assert(self@.dom() =~= keys_of(self.entries@).to_set());
            keys_of(self.entries@).unique_seq_to_set();
        }
        self.entries.len()
    }

    /// Whether the map has no entries.
    pub fn is_empty(&self) -> (b: bool)
        ensures
            b == (self@.dom().len() == 0),
            self@.dom().finite(),
    {
        self.len() == 0
    }

    /// Position of `key` among the stored keys, if it is present.
    fn position(&self, key: &str) -> (r: Option<usize>)
        ensures
            match r {
                Some(i) => i < self.entries@.len() && keys_of(self.entries@)[i as int] == key@ && keys_of(
                    self.entries@,
                ).index_of(key@) == i as int,
                None => !keys_of(self.entries@).contains(key@),
            },
    {
        proof {
            use_type_invariant(self);
        }
        let wanted = key.to_owned();
        let mut i: usize = 0;
        while i < self.entries.len()
            invariant
                i <= self.entries@.len(),
                keys_of(self.entries@).no_duplicates(),
                wanted@ == key@,
                forall|j: int| 0 <= j < i ==> keys_of(self.entries@)[j] != key@,
            decreases self.entries@.len() - i,
        {
            if self.entries[i].0 == wanted {
                proof {
                    let ks = keys_of(self.entries@);
                    assert(ks[i as int] == key@);
                    assert(ks.contains(key@));
                    let j = ks.index_of(key@);
                    assert(ks[j] == key@ && 0 <= j < ks.len());
                }
                return Some(i);
            }
            i += 1;
        }
        None
    }

    /// Whether `key` has a value.
    pub fn contains_key(&self, key: &str) -> (b: bool)
        ensures
            b == self@.dom().contains(key@),
    {
        self.position(key).is_some()
    }

    /// The value stored under `key`, if any.
    pub fn get(&self, key: &str) -> (r: Option<&serde_json::Value>)
        ensures
            match r {
                Some(v) => self@.dom().contains(key@) && *v == self@[key@],
                None => !self@.dom().contains(key@),
            },
    {
        match self.position(key) {
            Some(i) => Some(&self.entries[i].1),
            None => None,
        }
    }

    /// The entry at `index` in storage order, or `None` past the end.
    /// Entries at different positions have different keys, and each is an
    /// entry of the map.
    pub fn entry(&self, index: usize) -> (r: Option<(&str, &serde_json::Value)>)
        ensures
            r is Some <==> index < self.listing().len(),
            r matches Some(e) ==> {
                &&& (e.0@, *e.1) == self.listing()[index as int]
                &&& self@.dom().contains(e.0@)
                &&& self@[e.0@] == *e.1
            },
    {
        if index < self.entries.len() {
            proof {
                use_type_invariant(self);
                let ks = keys_of(self.entries@);
                assert(ks[index as int] == self.entries@[index as int].0@);
                assert(ks.contains(ks[index as int]));
                let j = ks.index_of(ks[index as int]);
                assert(ks[j] == ks[index as int] && 0 <= j < ks.len());
            }
            let e = &self.entries[index];
            Some((e.0.as_str(), &e.1))
        } else {
            None
        }
    }

    /// Stores `value` under `key`, replacing any earlier value of that key.
    pub fn insert(&mut self, key: &str, value: serde_json::Value)
        ensures
            final(self)@ == old(self)@.insert(key@, value),
    {
        proof {
            use_type_invariant(&*self);
        }
        let ghost ks0 = keys_of(self.entries@);
        let found = self.position(key);
        let mut entries: Vec<(String, serde_json::Value)> = Vec::new();
        std::mem::swap(&mut self.entries, &mut entries);
        match found {
            Some(i) => {
                entries.set(i, (key.to_owned(), value));
                proof {
                    assert(keys_of(entries@) =~= ks0);
                }
                self.entries = entries;
                proof {
                    let ks = keys_of(self.entries@);
                    assert(ks =~= ks0);
                    assert(self@ =~= old(self)@.insert(key@, value)) by {
                        assert forall|k: Seq<char>| self@.dom().contains(k) implies #[trigger] self@[k]
                            == old(self)@.insert(key@, value)[k] by {
                            let j = ks.index_of(k);
                            assert(ks[j] == k);
                        }
                    }
                }
            },
            None => {
                entries.push((key.to_owned(), value));
                proof {
                    assert(keys_of(entries@) =~= ks0.push(key@));
                }
                self.entries = entries;
                proof {
                    let ks = keys_of(self.entries@);
                    assert(ks =~= ks0.push(key@));
                    assert(ks.no_duplicates());
                    assert(self@ =~= old(self)@.insert(key@, value)) by {
                        assert forall|k: Seq<char>| #[trigger]
                            self@.dom().contains(k) <==> old(self)@.insert(key@, value).dom().contains(
                                k,
                            ) by {
                            if ks0.contains(k) {
                                let j = ks0.index_of(k);
                                assert(ks[j] == k);
                            }
                            if k == key@ {
                                assert(ks[ks0.len() as int] == k);
                            }
                        }
                        assert forall|k: Seq<char>| self@.dom().contains(k) implies #[trigger] self@[k]
                            == old(self)@.insert(key@, value)[k] by {
                            let j = ks.index_of(k);
                            assert(ks[j] == k && 0 <= j < ks.len());
                            if k != key@ {
                                assert(j < ks0.len());
                                assert(ks0[j] == k);
                                let j0 = ks0.index_of(k);
                                assert(ks0[j0] == k);
                                assert(j0 == j);
                            } else {
                                assert(ks[ks0.len() as int] == k);
                                assert(j == ks0.len());
                            }
                        }
                    }
                }
            },
        }
    }

    /// An independent copy holding the same entries.
    pub fn duplicate(&self) -> (copy: CustomMap)
        ensures
            copy@ == self@,
            copy.listing() == self.listing(),
    {
        proof {
            use_type_invariant(self);
        }
        let mut entries: Vec<(String, serde_json::Value)> = Vec::new();
        let mut i: usize = 0;
        while i < self.entries.len()
            invariant
                i <= self.entries@.len(),
                entries@.len() == i,
                forall|j: int|
                    0 <= j < i ==> (#[trigger] entries@[j]).0@ == self.entries@[j].0@ && entries@[j].1
                        == self.entries@[j].1,
            decreases self.entries@.len() - i,
        {
            let e = &self.entries[i];
            entries.push((e.0.clone(), clone_value(&e.1)));
            i += 1;
        }
        proof {
            assert(keys_of(entries@) =~= keys_of(self.entries@));
        }
        let copy = CustomMap { entries };
        proof {
            assert(copy@ =~= self@) by {
                assert forall|k: Seq<char>| copy@.dom().contains(k) implies #[trigger] copy@[k] == self@[k] by {
                    let j = keys_of(self.entries@).index_of(k);
                    assert(keys_of(self.entries@)[j] == k);
                }
            }
            assert(copy.listing() =~= self.listing());
        }
        copy
    }
}

} // verus!
