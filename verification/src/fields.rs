//! The `extra` fields of a notification: a map from field name to text in
//! which each name occurs once.

use vstd::prelude::*;

verus! {

/// Named text fields, each name at most once, kept in insertion order.
#[derive(Debug)]
pub struct ExtraFields {
    entries: Vec<(String, String)>,
}

/// `k` is the name at some position of `entries`.
pub open spec fn has_name(entries: Seq<(String, String)>, k: Seq<char>) -> bool {
    exists|i: int| 0 <= i < entries.len() && #[trigger] entries[i].0@ == k
}

/// The position of name `k` in `entries`.
pub open spec fn position_of(entries: Seq<(String, String)>, k: Seq<char>) -> int {
    choose|i: int| 0 <= i < entries.len() && #[trigger] entries[i].0@ == k
}

/// No name occurs twice.
pub open spec fn names_distinct(entries: Seq<(String, String)>) -> bool {
    forall|i: int, j: int|
        0 <= i < entries.len() && 0 <= j < entries.len() && i != j ==> #[trigger] entries[i].0@
            != #[trigger] entries[j].0@
}

/// The map that `entries` stand for.
pub open spec fn entries_map(entries: Seq<(String, String)>) -> Map<Seq<char>, Seq<char>> {
    Map::new(|k: Seq<char>| has_name(entries, k), |k: Seq<char>| entries[position_of(entries, k)].1@)
}

impl ExtraFields {
    #[verifier::type_invariant]
    spec fn distinct(self) -> bool {
        names_distinct(self.entries@)
    }

    pub closed spec fn view(&self) -> Map<Seq<char>, Seq<char>> {
        entries_map(self.entries@)
    }

    /// No fields at all.
    pub fn new() -> (r: ExtraFields)
        ensures
            r@ == Map::<Seq<char>, Seq<char>>::empty(),
    {
        let r = ExtraFields { entries: Vec::new() };
        assert(r@ =~= Map::<Seq<char>, Seq<char>>::empty());
        r
    }

    /// The position of `key` among the entries, if it is there.
    fn find(&self, key: &String) -> (r: Option<usize>)
        ensures
            r is None <==> !has_name(self.entries@, key@),
            r matches Some(i) ==> i < self.entries@.len() && self.entries@[i as int].0@ == key@,
    {
        let n = self.entries.len();
        for i in 0..n
            invariant
                n == self.entries@.len(),
                forall|j: int| 0 <= j < i ==> self.entries@[j].0@ != key@,
        {
            if self.entries[i].0 == *key {
                return Some(i);
            }
        }
        None
    }

    /// The text of field `key`, if there is one.
    pub fn get(&self, key: &str) -> (r: Option<&String>)
        ensures
            r is Some <==> self@.dom().contains(key@),
            r matches Some(v) ==> v@ == self@[key@],
    {
        proof {
            use_type_invariant(self);
        }
        let k = key.to_owned();
        match self.find(&k) {
            Some(i) => {
                proof {
                    let p = position_of(self.entries@, key@);
                    assert(p == i as int);
                }
                Some(&self.entries[i].1)
            },
            None => None,
        }
    }

    /// Sets field `key` to `value`, and gives back its former text, if any.
    pub fn insert(&mut self, key: String, value: String) -> (r: Option<String>)
        ensures
            final(self)@ == old(self)@.insert(key@, value@),
            r is Some <==> old(self)@.dom().contains(key@),
            r matches Some(v) ==> v@ == old(self)@[key@],
    {
        proof {
            use_type_invariant(&*self);
        }
        let ghost before = self.entries@;
        let found = self.find(&key);
        let mut entries: Vec<(String, String)> = Vec::new();
        std::mem::swap(&mut entries, &mut self.entries);
        assert(entries@ == before);
        match found {
            Some(i) => {
                proof {
                    assert(position_of(before, key@) == i as int);
                }
                let prev = entries[i].1.clone();
                entries.set(i, (key, value));
                proof {
                    let after = entries@;
                    assert(after == before.update(i as int, (key, value)));
                    assert forall|k: Seq<char>| has_name(after, k) == (has_name(before, k) || k == key@) by {
                        if has_name(before, k) {
                            let p = choose|p: int| 0 <= p < before.len() && #[trigger] before[p].0@ == k;
                            assert(after[p].0@ == k);
                        }
                        if has_name(after, k) {
                            let p = choose|p: int| 0 <= p < after.len() && #[trigger] after[p].0@ == k;
                            if p != i {
                                assert(before[p].0@ == k);
                            }
                        }
                        if k == key@ {
                            assert(after[i as int].0@ == k);
                        }
                    }
                    assert forall|k: Seq<char>| has_name(after, k) implies #[trigger] after[position_of(after, k)].1@
                        == (if k == key@ { value@ } else { before[position_of(before, k)].1@ }) by {
                        let p = position_of(after, k);
                        assert(after[p].0@ == k);
                        if k == key@ {
                            assert(p == i as int);
                        } else {
                            assert(before[p].0@ == k);
                            assert(position_of(before, k) == p);
                        }
                    }
                    assert(entries_map(after) =~= entries_map(before).insert(key@, value@));
                    assert(names_distinct(after));
                }
                self.entries = entries;
                Some(prev)
            },
            None => {
                let ghost kv = key@;
                let ghost vv = value@;
                entries.push((key, value));
                proof {
                    let after = entries@;
                    assert(after == before.push((key, value)));
                    let n = before.len() as int;
                    assert forall|k: Seq<char>| has_name(after, k) == (has_name(before, k) || k == kv) by {
                        if has_name(before, k) {
                            let p = choose|p: int| 0 <= p < before.len() && #[trigger] before[p].0@ == k;
                            assert(after[p].0@ == k);
                        }
                        if has_name(after, k) {
                            let p = choose|p: int| 0 <= p < after.len() && #[trigger] after[p].0@ == k;
                            if p != n {
                                assert(before[p].0@ == k);
                            }
                        }
                        if k == kv {
                            assert(after[n].0@ == k);
                        }
                    }
                    assert forall|k: Seq<char>| has_name(after, k) implies #[trigger] after[position_of(after, k)].1@
                        == (if k == kv { vv } else { before[position_of(before, k)].1@ }) by {
                        let p = position_of(after, k);
                        assert(after[p].0@ == k);
                        if k == kv {
                            if p != n {
                                assert(before[p].0@ == k);
                            }
                        } else {
                            assert(p != n);
                            assert(before[p].0@ == k);
                            assert(position_of(before, k) == p);
                        }
                    }
                    assert(entries_map(after) =~= entries_map(before).insert(kv, vv));
                    assert(names_distinct(after));
                }
                self.entries = entries;
                None
            },
        }
    }
}

/// Every field of `a` is a field of `b`, with the same text.
pub open spec fn fields_within(a: Map<Seq<char>, Seq<char>>, b: Map<Seq<char>, Seq<char>>) -> bool {
    forall|k: Seq<char>| #[trigger] a.dom().contains(k) ==> b.dom().contains(k) && b[k] == a[k]
}

impl ExtraFields {
    fn within(&self, other: &ExtraFields) -> (r: bool)
        ensures
            r == fields_within(self@, other@),
    {
        proof {
            use_type_invariant(self);
        }
        let n = self.entries.len();
        for i in 0..n
            invariant
                n == self.entries@.len(),
                names_distinct(self.entries@),
                forall|j: int|
                    0 <= j < i ==> other@.dom().contains(#[trigger] self.entries@[j].0@)
                        && other@[self.entries@[j].0@] == self.entries@[j].1@,
        {
            let same = match other.get(self.entries[i].0.as_str()) {
                Some(w) => *w == self.entries[i].1,
                None => false,
            };
            if !same {
                proof {
                    let k = self.entries@[i as int].0@;
                    assert(has_name(self.entries@, k));
                    assert(position_of(self.entries@, k) == i as int);
                    assert(self@.dom().contains(k));
                }
                return false;
            }
        }
        proof {
            assert forall|k: Seq<char>| #[trigger] self@.dom().contains(k) implies other@.dom().contains(
                k,
            ) && other@[k] == self@[k] by {
                let p = position_of(self.entries@, k);
                assert(self.entries@[p].0@ == k);
            }
        }
        true
    }
}

impl PartialEq for ExtraFields {
    /// Equal where both hold the same names with the same texts, in any order.
    fn eq(&self, other: &Self) -> (r: bool) {
        let r = self.within(other) && other.within(self);
        proof {
            if r {
                assert(self@ =~= other@);
            }
        }
        r
    }
}

impl vstd::std_specs::cmp::PartialEqSpecImpl for ExtraFields {
    open spec fn obeys_eq_spec() -> bool {
        true
    }

    open spec fn eq_spec(&self, other: &Self) -> bool {
        self@ == other@
    }
}

impl Clone for ExtraFields {
    /// A copy with the same fields.
    fn clone(&self) -> (r: Self)
        ensures
            r@ == self@,
    {
        proof {
            use_type_invariant(self);
        }
        let mut entries: Vec<(String, String)> = Vec::new();
        for i in 0..self.entries.len()
            invariant
                entries@ == self.entries@.take(i as int),
        {
            let name = self.entries[i].0.clone();
            let text = self.entries[i].1.clone();
            entries.push((name, text));
            assert(entries@ =~= self.entries@.take(i + 1));
        }
        assert(entries@ =~= self.entries@);
        ExtraFields { entries }
    }
}

/// A field reads back as the last text set under its name, and setting a
/// field leaves every other field as it was.
pub proof fn lemma_insert_then_read(
    fields: Map<Seq<char>, Seq<char>>,
    name: Seq<char>,
    text: Seq<char>,
    other: Seq<char>,
)
    requires
        other != name,
    ensures
        fields.insert(name, text).dom().contains(name),
        fields.insert(name, text)[name] == text,
        fields.insert(name, text).dom().contains(other) == fields.dom().contains(other),
        fields.dom().contains(other) ==> fields.insert(name, text)[other] == fields[other],
{
}

} // verus!
