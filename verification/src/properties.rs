//! Message properties: a map from text keys to text values that remembers the
//! order in which its keys first appeared.

use vstd::prelude::*;

verus! {

/// No key occurs twice in `s`.
pub open spec fn keys_distinct(s: Seq<(Seq<char>, Seq<char>)>) -> bool {
    forall|i: int, j: int| #![trigger s[i], s[j]] 0 <= i < j < s.len() ==> s[i].0 != s[j].0
}

/// Some entry of `s` has the key `k`.
pub open spec fn has_key(s: Seq<(Seq<char>, Seq<char>)>, k: Seq<char>) -> bool {
    exists|i: int| #![trigger s[i]] 0 <= i < s.len() && s[i].0 == k
}

/// The map that results from inserting the entries of `s` from first to last,
/// so that of two entries with one key the later one stays.
pub open spec fn to_map(s: Seq<(Seq<char>, Seq<char>)>) -> Map<Seq<char>, Seq<char>>
    decreases s.len(),
{
    if s.len() == 0 {
        Map::empty()
    } else {
        to_map(s.drop_last()).insert(s.last().0, s.last().1)
    }
}

/// The place of an entry with the key `k`; meaningful where `has_key(s, k)`.
pub open spec fn index_of(s: Seq<(Seq<char>, Seq<char>)>, k: Seq<char>) -> int {
    choose|i: int| #![trigger s[i]] 0 <= i < s.len() && s[i].0 == k
}

/// `s` with the value of `k` set to `v`: in place where `k` is present, at
/// the end where it is not.
pub open spec fn upsert(s: Seq<(Seq<char>, Seq<char>)>, k: Seq<char>, v: Seq<char>) -> Seq<
    (Seq<char>, Seq<char>),
> {
    if has_key(s, k) {
        s.update(index_of(s, k), (k, v))
    } else {
        s.push((k, v))
    }
}

/// The entries that remain when `pairs` are inserted one after the other.
pub open spec fn collect(pairs: Seq<(Seq<char>, Seq<char>)>) -> Seq<(Seq<char>, Seq<char>)>
    decreases pairs.len(),
{
    if pairs.len() == 0 {
        Seq::empty()
    } else {
        upsert(collect(pairs.drop_last()), pairs.last().0, pairs.last().1)
    }
}

/// Dropping the last entry keeps the keys distinct.
pub proof fn lemma_distinct_prefix(s: Seq<(Seq<char>, Seq<char>)>)
    requires
        keys_distinct(s),
        s.len() > 0,
    ensures
        keys_distinct(s.drop_last()),
        !has_key(s.drop_last(), s.last().0),
{
    let rest = s.drop_last();
    let last = s.len() - 1;
    assert forall|i: int, j: int|
        #![trigger rest[i], rest[j]]
        0 <= i < j < rest.len() implies rest[i].0 != rest[j].0 by {
        assert(s[i].0 != s[j].0);
    }
    if has_key(rest, s.last().0) {
        let w = index_of(rest, s.last().0);
        assert(s[w].0 != s[last].0);
    }
}

/// Replacing the value of the entry at `i` sets its key in the map.
pub proof fn lemma_update_map(s: Seq<(Seq<char>, Seq<char>)>, i: int, v: Seq<char>)
    requires
        keys_distinct(s),
        0 <= i < s.len(),
    ensures
        to_map(s.update(i, (s[i].0, v))) == to_map(s).insert(s[i].0, v),
    decreases s.len(),
{
    let k = s[i].0;
    let out = s.update(i, (k, v));
    let last = s.len() - 1;
    if i == last {
        assert(out.drop_last() =~= s.drop_last());
        assert(to_map(out) =~= to_map(s).insert(k, v));
    } else {
        lemma_distinct_prefix(s);
        lemma_update_map(s.drop_last(), i, v);
        assert(s.drop_last()[i] == s[i]);
        assert(out.drop_last() =~= s.drop_last().update(i, (k, v)));
        assert(s[i].0 != s[last].0);
        assert(to_map(out) =~= to_map(s).insert(k, v));
    }
}

/// What `upsert` does to entries without a repeated key: the keys stay
/// distinct, the map gains the binding, a present key is updated where it
/// stands and an absent one is appended.
pub proof fn lemma_upsert(s: Seq<(Seq<char>, Seq<char>)>, k: Seq<char>, v: Seq<char>)
    requires
        keys_distinct(s),
    ensures
        keys_distinct(upsert(s, k, v)),
        to_map(upsert(s, k, v)) == to_map(s).insert(k, v),
        forall|i: int|
            #![trigger s[i]]
            0 <= i < s.len() && s[i].0 == k ==> upsert(s, k, v) == s.update(i, (k, v)),
        !has_key(s, k) ==> upsert(s, k, v) == s.push((k, v)),
{
    let out = upsert(s, k, v);
    if has_key(s, k) {
        let w = index_of(s, k);
        assert forall|i: int| #![trigger s[i]] 0 <= i < s.len() && s[i].0 == k implies out
            == s.update(i, (k, v)) by {
            if i < w {
                assert(s[i].0 != s[w].0);
            }
            if w < i {
                assert(s[w].0 != s[i].0);
            }
        }
        assert forall|i: int, j: int|
            #![trigger out[i], out[j]]
            0 <= i < j < out.len() implies out[i].0 != out[j].0 by {
            assert(s[i].0 != s[j].0);
        }
        lemma_update_map(s, w, v);
    } else {
        assert(out.drop_last() =~= s);
        assert forall|i: int, j: int|
            #![trigger out[i], out[j]]
            0 <= i < j < out.len() implies out[i].0 != out[j].0 by {
            if j < s.len() {
                assert(s[i].0 != s[j].0);
            } else {
                assert(s[i].0 != k);
            }
        }
    }
}

/// The keys of the map are the keys of the entries; where no key occurs
/// twice, each entry's value is the map's value at its key.
pub proof fn lemma_map_of_entries(s: Seq<(Seq<char>, Seq<char>)>)
    ensures
        forall|k: Seq<char>|
            #![trigger to_map(s).contains_key(k)]
            to_map(s).contains_key(k) <==> has_key(s, k),
        to_map(s).dom().finite(),
        keys_distinct(s) ==> forall|i: int|
            #![trigger s[i]]
            0 <= i < s.len() ==> to_map(s)[s[i].0] == s[i].1,
    decreases s.len(),
{
    if s.len() > 0 {
        let rest = s.drop_last();
        let last = s.len() - 1;
        lemma_map_of_entries(rest);
        assert forall|k: Seq<char>|
            #![trigger to_map(s).contains_key(k)]
            to_map(s).contains_key(k) <==> has_key(s, k) by {
            if has_key(s, k) {
                let w = choose|i: int| #![trigger s[i]] 0 <= i < s.len() && s[i].0 == k;
                if w < last {
                    assert(rest[w].0 == k);
                    assert(has_key(rest, k));
                }
            }
            if to_map(s).contains_key(k) {
                if k == s.last().0 {
                    assert(s[last].0 == k);
                } else {
                    assert(has_key(rest, k));
                    let w = index_of(rest, k);
                    assert(s[w].0 == k);
                }
            }
        }
        if keys_distinct(s) {
            lemma_distinct_prefix(s);
            assert forall|i: int| #![trigger s[i]] 0 <= i < s.len() implies to_map(s)[s[i].0]
                == s[i].1 by {
                if i < last {
                    assert(s[i].0 != s[last].0);
                    assert(rest[i] == s[i]);
                }
            }
        }
    }
}

/// Collecting pairs leaves no key twice and yields the map of the pairs.
pub proof fn lemma_collect(pairs: Seq<(Seq<char>, Seq<char>)>)
    ensures
        keys_distinct(collect(pairs)),
        to_map(collect(pairs)) == to_map(pairs),
        collect(pairs).len() <= pairs.len(),
    decreases pairs.len(),
{
    if pairs.len() > 0 {
        let rest = pairs.drop_last();
        lemma_collect(rest);
        lemma_upsert(collect(rest), pairs.last().0, pairs.last().1);
        if has_key(collect(rest), pairs.last().0) {
            assert(collect(rest)[index_of(collect(rest), pairs.last().0)].0 == pairs.last().0);
        }
    }
}

/// One property of a message.
#[derive(Debug)]
pub struct Property {
    pub key: String,
    pub value: String,
}

impl Property {
    /// The key and the value as text.
    pub open spec fn pair(self) -> (Seq<char>, Seq<char>) {
        (self.key@, self.value@)
    }
}

/// The properties of a message. Keys are unique; entries keep the order in
/// which their keys were first inserted.
#[derive(Debug)]
pub struct Properties {
    pub(crate) items: Vec<Property>,
}

impl View for Properties {
    type V = Map<Seq<char>, Seq<char>>;

    open spec fn view(&self) -> Map<Seq<char>, Seq<char>> {
        to_map(self.entries())
    }
}

impl Properties {
    /// The entries in order, as pairs of key and value.
    pub open(crate) spec fn entries(self) -> Seq<(Seq<char>, Seq<char>)> {
        entries_of(self.items@)
    }

    /// No key occurs twice.
    pub open spec fn wf(self) -> bool {
        keys_distinct(self.entries())
    }

    #[verifier::type_invariant]
    spec fn inv(self) -> bool {
        self.wf()
    }

    /// The empty set of properties.
    pub fn new() -> (props: Properties)
        ensures
            props.wf(),
            props.entries() == Seq::<(Seq<char>, Seq<char>)>::empty(),
            props@ == Map::<Seq<char>, Seq<char>>::empty(),
    {
        let items: Vec<Property> = Vec::new();
        assert(entries_of(items@) =~= Seq::empty());
        Properties { items }
    }

    /// Number of properties.
    pub fn len(&self) -> (n: usize)
        ensures
            n == self.entries().len(),
            n == self@.len(),
    {
        proof {
            use_type_invariant(self);
            lemma_len_of_map(self.entries());
        }
        self.items.len()
    }

    /// Whether there is no property at all.
    pub fn is_empty(&self) -> (empty: bool)
        ensures
            empty == (self.entries().len() == 0),
            empty == (self@ == Map::<Seq<char>, Seq<char>>::empty()),
    {
        proof {
            use_type_invariant(self);
            lemma_len_of_map(self.entries());
            lemma_map_of_entries(self.entries());
            if self.entries().len() > 0 {
                assert(self.entries()[0].0 == self.entries()[0].0);
                assert(has_key(self.entries(), self.entries()[0].0));
            }
        }
        self.items.len() == 0
    }

    /// The value stored under `key`, if there is one.
    pub fn get(&self, key: &str) -> (found: Option<String>)
        ensures
            match found {
                Some(value) => self@.contains_key(key@) && self@[key@] == value@,
                None => !self@.contains_key(key@),
            },
    {
        proof {
            use_type_invariant(self);
            lemma_map_of_entries(self.entries());
        }
        let wanted = key.to_owned();
        let mut i: usize = 0;
        while i < self.items.len()
            invariant
                i <= self.items@.len(),
                wanted@ == key@,
                forall|j: int|
                    #![trigger self.entries()[j]]
                    0 <= j < i ==> self.entries()[j].0 != key@,
            decreases self.items@.len() - i,
        {
            if self.items[i].key == wanted {
                proof {
                    use_type_invariant(self);
                    lemma_map_of_entries(self.entries());
                    assert(self.entries()[i as int] == self.items@[i as int].pair());
                    assert(has_key(self.entries(), key@));
                }
                return Some(self.items[i].value.clone());
            }
            assert(self.entries()[i as int] == self.items@[i as int].pair());
            i = i + 1;
        }
        assert(!has_key(self.entries(), key@));
        None
    }

    /// These properties with `key` set to `value`. A key that is present
    /// keeps its place; a new key goes to the end.
    pub fn with(self, key: String, value: String) -> (props: Properties)
        ensures
            props.wf(),
            props.entries() == upsert(self.entries(), key@, value@),
            props@ == self@.insert(key@, value@),
    {
        proof {
            use_type_invariant(&self);
            lemma_upsert(self.entries(), key@, value@);
        }
        let ghost before = self.entries();
        let mut items = self.items;
        let mut i: usize = 0;
        while i < items.len()
            invariant
                i <= items@.len(),
                entries_of(items@) == before,
                keys_distinct(before),
                self.entries() == before,
                forall|j: int| #![trigger before[j]] 0 <= j < i ==> before[j].0 != key@,
            decreases items@.len() - i,
        {
            assert(before[i as int] == items@[i as int].pair());
            if items[i].key == key {
                items.set(i, Property { key, value });
                proof {
                    lemma_upsert(before, key@, value@);
                    assert(entries_of(items@) =~= before.update(i as int, (key@, value@)));
                }
                return Properties { items };
            }
            i = i + 1;
        }
        assert(!has_key(before, key@));
        items.push(Property { key, value });
        assert(entries_of(items@) =~= before.push((key@, value@)));
        Properties { items }
    }

    /// Sets `key` to `value` in place; see `with`.
    pub fn insert(&mut self, key: String, value: String)
        ensures
            final(self).wf(),
            final(self).entries() == upsert(old(self).entries(), key@, value@),
            final(self)@ == old(self)@.insert(key@, value@),
    {
        let mut taken = Properties::new();
        core::mem::swap(self, &mut taken);
        *self = taken.with(key, value);
    }

    /// The properties that remain when `pairs` are inserted in order: of two
    /// pairs with one key the later value stays.
    pub fn from_pairs(pairs: Vec<(String, String)>) -> (props: Properties)
        ensures
            props.wf(),
            props.entries() == collect(pairs_view(pairs@)),
            props@ == to_map(pairs_view(pairs@)),
    {
        let mut props = Properties::new();
        let mut pairs = pairs;
        let ghost all = pairs_view(pairs@);
        let mut rest: Vec<(String, String)> = Vec::new();
        // Take the pairs from the back, then insert them front to back.
        while pairs.len() > 0
            invariant
                pairs_view(pairs@) + pairs_view(rest@).reverse() == all,
            decreases pairs@.len(),
        {
            let ghost before = pairs@;
            let ghost stack = rest@;
            let last = pairs.pop().unwrap();
            rest.push(last);
            assert(pairs_view(pairs@) + pairs_view(rest@).reverse() =~= pairs_view(before)
                + pairs_view(stack).reverse());
        }
        assert(pairs_view(pairs@) =~= Seq::empty());
        let ghost mut done: Seq<(Seq<char>, Seq<char>)> = Seq::empty();
        assert(collect(done) =~= Seq::empty());
        while rest.len() > 0
            invariant
                done + pairs_view(rest@).reverse() == all,
                props.entries() == collect(done),
            decreases rest@.len(),
        {
            let ghost stack = rest@;
            let (key, value) = rest.pop().unwrap();
            proof {
                let next = done.push((key@, value@));
                assert(next.drop_last() =~= done);
                assert(next + pairs_view(rest@).reverse() =~= done + pairs_view(stack).reverse());
                done = next;
            }
            props.insert(key, value);
        }
        proof {
            assert(done =~= all);
            lemma_collect(all);
            use_type_invariant(&props);
        }
        props
    }

    /// The entries in order, as owned pairs.
    pub fn to_pairs(&self) -> (pairs: Vec<(String, String)>)
        ensures
            pairs_view(pairs@) == self.entries(),
    {
        let mut pairs: Vec<(String, String)> = Vec::new();
        let mut i: usize = 0;
        while i < self.items.len()
            invariant
                i <= self.items@.len(),
                pairs@.len() == i,
                forall|j: int|
                    #![trigger pairs@[j]]
                    0 <= j < i ==> pairs@[j].0@ == self.items@[j].key@ && pairs@[j].1@
                        == self.items@[j].value@,
            decreases self.items@.len() - i,
        {
            pairs.push((self.items[i].key.clone(), self.items[i].value.clone()));
            i = i + 1;
        }
        assert(pairs_view(pairs@) =~= self.entries());
        pairs
    }

    /// A copy with the same entries in the same order.
    pub fn duplicate(&self) -> (copy: Properties)
        ensures
            copy.wf(),
            copy.entries() == self.entries(),
            copy@ == self@,
    {
        proof {
            use_type_invariant(self);
        }
        let mut items: Vec<Property> = Vec::new();
        let mut i: usize = 0;
        while i < self.items.len()
            invariant
                i <= self.items@.len(),
                items@.len() == i,
                forall|j: int|
                    #![trigger items@[j]]
                    0 <= j < i ==> items@[j].pair() == self.items@[j].pair(),
            decreases self.items@.len() - i,
        {
            items.push(
                Property { key: self.items[i].key.clone(), value: self.items[i].value.clone() },
            );
            i = i + 1;
        }
        assert(entries_of(items@) =~= self.entries());
        Properties { items }
    }
}

/// The items of `items` as pairs of text.
pub open spec fn entries_of(items: Seq<Property>) -> Seq<(Seq<char>, Seq<char>)> {
    Seq::new(items.len(), |i: int| items[i].pair())
}

/// The pairs of `pairs` as text.
pub open spec fn pairs_view(pairs: Seq<(String, String)>) -> Seq<(Seq<char>, Seq<char>)> {
    Seq::new(pairs.len(), |i: int| (pairs[i].0@, pairs[i].1@))
}

/// Where no key occurs twice, the map has as many keys as there are entries.
pub proof fn lemma_len_of_map(s: Seq<(Seq<char>, Seq<char>)>)
    requires
        keys_distinct(s),
    ensures
        to_map(s).dom().finite(),
        to_map(s).len() == s.len(),
    decreases s.len(),
{
    lemma_map_of_entries(s);
    if s.len() > 0 {
        let rest = s.drop_last();
        let last = s.len() - 1;
        lemma_distinct_prefix(s);
        lemma_len_of_map(rest);
        lemma_map_of_entries(rest);
        assert(!to_map(rest).contains_key(s.last().0));
    }
}

} // verus!
