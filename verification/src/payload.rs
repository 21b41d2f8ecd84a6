//! The parameters of a request: string keys with string values, kept in the
//! order in which the keys were first inserted.
//!
//! A signature is computed over the parameters in order, so the container
//! never reorders them. No key occurs twice.

use vstd::prelude::*;
use vstd::string::*;

verus! {

/// One parameter as a pair of character sequences: key, then value.
pub type Entry = (Seq<char>, Seq<char>);

/// No key occurs at two positions.
pub open spec fn distinct_keys(entries: Seq<Entry>) -> bool {
    forall|i: int, j: int| 0 <= i < j < entries.len() ==> entries[i].0 != entries[j].0
}

/// Some entry has the key `key`.
pub open spec fn has_key(entries: Seq<Entry>, key: Seq<char>) -> bool {
    exists|i: int| 0 <= i < entries.len() && #[trigger] entries[i].0 == key
}

/// The value that stands with `key`; meaningful where `has_key` holds.
pub open spec fn value_of(entries: Seq<Entry>, key: Seq<char>) -> Seq<char> {
    entries[choose|i: int| 0 <= i < entries.len() && #[trigger] entries[i].0 == key].1
}

/// The entries after `key` was set to `value`: a present key keeps its place
/// and takes the new value, an absent one is added at the end.
pub open spec fn with_entry(entries: Seq<Entry>, key: Seq<char>, value: Seq<char>) -> Seq<Entry> {
    if has_key(entries, key) {
        Seq::new(
            entries.len(),
            |i: int|
                if entries[i].0 == key {
                    (key, value)
                } else {
                    entries[i]
                },
        )
    } else {
        entries.push((key, value))
    }
}

/// The entries whose key is not `key`, in their order.
pub open spec fn without_key(entries: Seq<Entry>, key: Seq<char>) -> Seq<Entry>
    decreases entries.len(),
{
    if entries.len() == 0 {
        entries
    } else if entries.last().0 == key {
        without_key(entries.drop_last(), key)
    } else {
        without_key(entries.drop_last(), key).push(entries.last())
    }
}

/// Where no entry has the key, nothing is taken out.
pub proof fn lemma_without_absent_key(entries: Seq<Entry>, key: Seq<char>)
    requires
        !has_key(entries, key),
    ensures
        without_key(entries, key) == entries,
    decreases entries.len(),
{
    if entries.len() > 0 {
        let front = entries.drop_last();
        assert(entries[entries.len() - 1].0 != key);
        assert forall|i: int| 0 <= i < front.len() implies #[trigger] front[i].0 != key by {
            assert(entries[i].0 == front[i].0);
        }
        lemma_without_absent_key(front, key);
        assert(front.push(entries.last()) =~= entries);
    }
}

/// Where keys are distinct, taking out a key takes out the one entry that has it.
pub proof fn lemma_without_present_key(entries: Seq<Entry>, key: Seq<char>, at: int)
    requires
        distinct_keys(entries),
        0 <= at < entries.len(),
        entries[at].0 == key,
    ensures
        without_key(entries, key) == entries.remove(at),
    decreases entries.len(),
{
    let front = entries.drop_last();
    if at == entries.len() - 1 {
        assert forall|i: int| 0 <= i < front.len() implies #[trigger] front[i].0 != key by {
            assert(entries[i].0 == front[i].0);
        }
        lemma_without_absent_key(front, key);
        assert(entries.remove(at) =~= front);
    } else {
        assert(front[at].0 == key);
        lemma_without_present_key(front, key, at);
        assert(front.remove(at).push(entries.last()) =~= entries.remove(at));
    }
}

/// Where keys are distinct and the key is present, taking it out leaves one
/// entry less.
pub proof fn lemma_without_one_key_len(entries: Seq<Entry>, key: Seq<char>)
    requires
        distinct_keys(entries),
        has_key(entries, key),
    ensures
        without_key(entries, key).len() == entries.len() - 1,
{
    let at = choose|i: int| 0 <= i < entries.len() && #[trigger] entries[i].0 == key;
    lemma_without_present_key(entries, key, at);
}

/// After a key was taken out, no entry has it, and the keys stay distinct.
pub proof fn lemma_without_key_properties(entries: Seq<Entry>, key: Seq<char>)
    requires
        distinct_keys(entries),
    ensures
        !has_key(without_key(entries, key), key),
        distinct_keys(without_key(entries, key)),
        forall|other: Seq<char>|
            other != key ==> (has_key(without_key(entries, key), other) <==> has_key(
                entries,
                other,
            )),
{
    let out = without_key(entries, key);
    if has_key(entries, key) {
        let at = choose|i: int| 0 <= i < entries.len() && #[trigger] entries[i].0 == key;
        lemma_without_present_key(entries, key, at);
        assert forall|i: int| 0 <= i < out.len() implies #[trigger] out[i].0 != key by {
            if i < at {
                assert(out[i] == entries[i]);
            } else {
                assert(out[i] == entries[i + 1]);
            }
        }
        assert forall|other: Seq<char>| other != key implies (has_key(out, other) <==> has_key(
            entries,
            other,
        )) by {
            if has_key(entries, other) {
                let j = choose|j: int| 0 <= j < entries.len() && #[trigger] entries[j].0 == other;
                if j < at {
                    assert(out[j].0 == other);
                } else {
                    assert(out[j - 1].0 == other);
                }
            }
            if has_key(out, other) {
                let j = choose|j: int| 0 <= j < out.len() && #[trigger] out[j].0 == other;
                if j < at {
                    assert(entries[j].0 == other);
                } else {
                    assert(entries[j + 1].0 == other);
                }
            }
        }
    } else {
        lemma_without_absent_key(entries, key);
    }
}

/// Setting a key keeps the keys distinct and makes the key present with the value.
pub proof fn lemma_with_entry_properties(entries: Seq<Entry>, key: Seq<char>, value: Seq<char>)
    requires
        distinct_keys(entries),
    ensures
        distinct_keys(with_entry(entries, key, value)),
        has_key(with_entry(entries, key, value), key),
        value_of(with_entry(entries, key, value), key) == value,
{
    let out = with_entry(entries, key, value);
    if has_key(entries, key) {
        let at = choose|i: int| 0 <= i < entries.len() && #[trigger] entries[i].0 == key;
        assert(out[at].0 == key);
    } else {
        assert(out[entries.len() as int].0 == key);
    }
    let pick = choose|i: int| 0 <= i < out.len() && #[trigger] out[i].0 == key;
    assert(out[pick].1 == value);
}

/// The entries that come of setting each entry of `entries`, in order, on
/// an empty payload.
pub open spec fn rebuilt(entries: Seq<Entry>) -> Seq<Entry>
    decreases entries.len(),
{
    if entries.len() == 0 {
        entries
    } else {
        with_entry(rebuilt(entries.drop_last()), entries.last().0, entries.last().1)
    }
}

/// Parameters that are set again one by one, in their order, come out as
/// they were: the container does not reorder them.
pub proof fn lemma_rebuilt_keeps_order(entries: Seq<Entry>)
    requires
        distinct_keys(entries),
    ensures
        rebuilt(entries) == entries,
    decreases entries.len(),
{
    if entries.len() > 0 {
        let front = entries.drop_last();
        let last = entries.last();
        assert forall|i: int, j: int| 0 <= i < j < front.len() implies front[i].0 != front[j].0 by {
            assert(front[i] == entries[i]);
            assert(front[j] == entries[j]);
        }
        lemma_rebuilt_keeps_order(front);
        assert forall|i: int| 0 <= i < front.len() implies #[trigger] front[i].0 != last.0 by {
            assert(front[i] == entries[i]);
        }
        assert(!has_key(front, last.0));
        assert(front.push(last) =~= entries);
    }
}

/// Request parameters in insertion order, each key at most once.
#[derive(Debug)]
pub struct Payload {
    entries: Vec<(String, String)>,
}

impl View for Payload {
    type V = Seq<Entry>;

    closed spec fn view(&self) -> Seq<Entry> {
        entries_view(self.entries@)
    }
}

/// The entries that a sequence of string pairs denotes.
pub open spec fn entries_view(pairs: Seq<(String, String)>) -> Seq<Entry> {
    Seq::new(pairs.len(), |i: int| (pairs[i].0@, pairs[i].1@))
}

impl Payload {
    /// The invariant of the type: no key occurs twice.
    #[verifier::type_invariant]
    pub open spec fn keys_are_distinct(&self) -> bool {
        distinct_keys(self@)
    }

    /// A payload without parameters.
    pub fn new() -> (payload: Payload)
        ensures
            payload@ == Seq::<Entry>::empty(),
    {
        let payload = Payload { entries: Vec::new() };
        assert(payload@ =~= Seq::<Entry>::empty());
        payload
    }

    /// The number of parameters.
    pub fn len(&self) -> (n: usize)
        ensures
            n == self@.len(),
    {
        self.entries.len()
    }

    /// Whether there is no parameter.
    pub fn is_empty(&self) -> (empty: bool)
        ensures
            empty == (self@.len() == 0),
    {
        self.entries.len() == 0
    }

    /// The key at position `i`.
    pub fn key_at(&self, i: usize) -> (key: &String)
        requires
            i < self@.len(),
        ensures
            key@ == self@[i as int].0,
    {
        &self.entries[i].0
    }

    /// The value at position `i`.
    pub fn value_at(&self, i: usize) -> (value: &String)
        requires
            i < self@.len(),
        ensures
            value@ == self@[i as int].1,
    {
        &self.entries[i].1
    }

    fn take_entries(&mut self) -> (entries: Vec<(String, String)>)
        ensures
            entries_view(entries@) == old(self)@,
            final(self)@ == Seq::<Entry>::empty(),
    {
        let mut entries: Vec<(String, String)> = Vec::new();
        assert(entries_view(entries@) =~= Seq::<Entry>::empty());
        core::mem::swap(&mut self.entries, &mut entries);
        entries
    }

    fn position(&self, key: &str) -> (found: Option<usize>)
        ensures
            match found {
                Some(at) => at < self@.len() && self@[at as int].0 == key@,
                None => !has_key(self@, key@),
            },
    {
        let wanted = String::from_str(key);
        let mut i: usize = 0;
        while i < self.entries.len()
            invariant
                i <= self.entries@.len(),
                wanted@ == key@,
                forall|j: int| 0 <= j < i ==> self@[j].0 != key@,
            decreases self.entries@.len() - i,
        {
            if self.entries[i].0 == wanted {
                return Some(i);
            }
            i += 1;
        }
        None
    }

    /// Whether a parameter has the key `key`.
    pub fn contains_key(&self, key: &str) -> (present: bool)
        ensures
            present == has_key(self@, key@),
    {
        self.position(key).is_some()
    }

    /// The value of the parameter with the key `key`, if there is one.
    pub fn get(&self, key: &str) -> (value: Option<&String>)
        ensures
            match value {
                Some(v) => has_key(self@, key@) && v@ == value_of(self@, key@),
                None => !has_key(self@, key@),
            },
    {
        match self.position(key) {
            Some(at) => {
                proof {
                    use_type_invariant(self);
                    let pick = choose|i: int|
                        0 <= i < self@.len() && #[trigger] self@[i].0 == key@;
                    assert(pick == at);
                }
                Some(&self.entries[at].1)
            },
            None => None,
        }
    }

    /// Sets `key` to `value`. A key that is present keeps its position and its
    /// former value is returned; a new key goes to the end.
    pub fn insert(&mut self, key: String, value: String) -> (former: Option<String>)
        ensures
            final(self)@ == with_entry(old(self)@, key@, value@),
            match former {
                Some(v) => has_key(old(self)@, key@) && v@ == value_of(old(self)@, key@),
                None => !has_key(old(self)@, key@),
            },
    {
        proof {
            use_type_invariant(&*self);
            lemma_with_entry_properties(self@, key@, value@);
        }
        let ghost before = self@;
        match self.position(key.as_str()) {
            Some(at) => {
                proof {
                    let pick = choose|i: int|
                        0 <= i < before.len() && #[trigger] before[i].0 == key@;
                    assert(pick == at);
                }
                let mut entries = self.take_entries();
                let held = entries.remove(at);
                entries.insert(at, (key, value));
                assert(entries_view(entries@) =~= with_entry(before, key@, value@));
                self.entries = entries;
                Some(held.1)
            },
            None => {
                let mut entries = self.take_entries();
                entries.push((key, value));
                assert(entries_view(entries@) =~= with_entry(before, key@, value@));
                self.entries = entries;
                None
            },
        }
    }

    /// Takes out the parameter with the key `key` and returns its value, if
    /// there is one. The other parameters keep their order.
    pub fn remove(&mut self, key: &str) -> (former: Option<String>)
        ensures
            final(self)@ == without_key(old(self)@, key@),
            match former {
                Some(v) => has_key(old(self)@, key@) && v@ == value_of(old(self)@, key@),
                None => !has_key(old(self)@, key@),
            },
    {
        proof {
            use_type_invariant(&*self);
            lemma_without_key_properties(self@, key@);
        }
        let ghost before = self@;
        match self.position(key) {
            Some(at) => {
                proof {
                    let pick = choose|i: int|
                        0 <= i < before.len() && #[trigger] before[i].0 == key@;
                    assert(pick == at);
                    lemma_without_present_key(before, key@, at as int);
                }
                let mut entries = self.take_entries();
                let held = entries.remove(at);
                assert(entries_view(entries@) =~= before.remove(at as int));
                self.entries = entries;
                Some(held.1)
            },
            None => {
                proof {
                    lemma_without_absent_key(before, key@);
                }
                None
            },
        }
    }
}

} // verus!
