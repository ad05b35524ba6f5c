use vstd::prelude::*;

use crate::error::FfmpegError;

verus! {

/// The value of the first entry from index `from` on whose key is `key`.
pub open spec fn spec_lookup_from(entries: Seq<(Seq<char>, Seq<char>)>, key: Seq<char>, from: int) -> Option<Seq<char>>
    decreases entries.len() - from,
{
    if from < 0 || from >= entries.len() {
        None
    } else if entries[from].0 == key {
        Some(entries[from].1)
    } else {
        spec_lookup_from(entries, key, from + 1)
    }
}

/// The value stored for `key`, if any.
pub open spec fn spec_lookup(entries: Seq<(Seq<char>, Seq<char>)>, key: Seq<char>) -> Option<Seq<char>> {
    spec_lookup_from(entries, key, 0)
}

/// Changing the value of an entry whose key is not `other` leaves the lookup of
/// `other` as it was.
proof fn lemma_lookup_other_key(
    entries: Seq<(Seq<char>, Seq<char>)>,
    i: int,
    value: Seq<char>,
    other: Seq<char>,
    from: int,
)
    requires
        0 <= i < entries.len(),
        entries[i].0 != other,
        0 <= from,
    ensures
        spec_lookup_from(entries.update(i, (entries[i].0, value)), other, from) == spec_lookup_from(
            entries,
            other,
            from,
        ),
    decreases entries.len() - from,
{
    if from < entries.len() {
        lemma_lookup_other_key(entries, i, value, other, from + 1);
    }
}

/// When no entry before `i` has the key of entry `i`, the lookup of that key from any
/// earlier index finds entry `i`.
proof fn lemma_lookup_first(entries: Seq<(Seq<char>, Seq<char>)>, i: int, from: int)
    requires
        0 <= from <= i < entries.len(),
        forall|j: int| 0 <= j < i ==> entries[j].0 != entries[i].0,
    ensures
        spec_lookup_from(entries, entries[i].0, from) == Some(entries[i].1),
    decreases i - from,
{
    if from < i {
        lemma_lookup_first(entries, i, from + 1);
    }
}

/// When no entry from `from` on has `key`, the lookup of `key` finds nothing.
proof fn lemma_lookup_absent(entries: Seq<(Seq<char>, Seq<char>)>, key: Seq<char>, from: int)
    requires
        0 <= from,
        forall|j: int| from <= j < entries.len() ==> entries[j].0 != key,
    ensures
        spec_lookup_from(entries, key, from) is None,
    decreases entries.len() - from,
{
    if from < entries.len() {
        lemma_lookup_absent(entries, key, from + 1);
    }
}

/// Appending an entry leaves the lookup of every key already present as it was, and
/// makes a key that was absent find the new value.
proof fn lemma_lookup_push(
    entries: Seq<(Seq<char>, Seq<char>)>,
    key: Seq<char>,
    value: Seq<char>,
    other: Seq<char>,
    from: int,
)
    requires
        0 <= from <= entries.len(),
        forall|j: int| 0 <= j < entries.len() ==> entries[j].0 != key,
    ensures
        other != key ==> spec_lookup_from(entries.push((key, value)), other, from)
            == spec_lookup_from(entries, other, from),
        other == key ==> spec_lookup_from(entries.push((key, value)), other, from) == Some(value),
    decreases entries.len() - from,
{
    if from < entries.len() {
        lemma_lookup_push(entries, key, value, other, from + 1);
    } else {
        assert(spec_lookup_from(entries.push((key, value)), other, from + 1) is None);
    }
}

/// A dictionary of string options, as FFmpeg takes them (`AVDictionary`).
#[derive(Clone, Debug)]
pub struct Dictionary {
    entries: Vec<(String, String)>,
}

impl View for Dictionary {
    type V = Seq<(Seq<char>, Seq<char>)>;

    closed spec fn view(&self) -> Seq<(Seq<char>, Seq<char>)> {
        self.entries@.map_values(|e: (String, String)| (e.0@, e.1@))
    }
}

impl Dictionary {
    /// Creates an empty dictionary.
    pub fn new() -> (r: Dictionary)
        ensures
            r@ == Seq::<(Seq<char>, Seq<char>)>::empty(),
    {
        let d = Dictionary { entries: Vec::new() };
        assert(d@ =~= Seq::<(Seq<char>, Seq<char>)>::empty());
        d
    }

    /// Sets `key` to `value`, replacing the value it had. Every other key keeps its
    /// value.
    pub fn set(&mut self, key: &str, value: &str) -> (r: Result<(), FfmpegError>)
        ensures
            r is Ok,
            spec_lookup(final(self)@, key@) == Some(value@),
            forall|other: Seq<char>|
                other != key@ ==> #[trigger] spec_lookup(final(self)@, other) == spec_lookup(
                    old(self)@,
                    other,
                ),
    {
        let k: String = key.to_owned();
        let v: String = value.to_owned();
        let mut i: usize = 0;
        while i < self.entries.len()
            invariant
                i <= self.entries@.len(),
                self.entries@ == old(self).entries@,
                k@ == key@,
                v@ == value@,
                forall|j: int| 0 <= j < i ==> (#[trigger] self@[j]).0 != key@,
            decreases self.entries@.len() - i,
        {
            if self.entries[i].0 == k {
                let ghost before = self@;
                let ghost before_entries = self.entries@;
                assert(before[i as int].0 == key@);
                self.entries.set(i, (k, v));
                proof {
                    assert(self.entries@ == before_entries.update(i as int, self.entries@[i as int]));
                    assert forall|j: int| 0 <= j < self@.len() implies #[trigger] self@[j] == before.update(
                        i as int,
                        (before[i as int].0, value@),
                    )[j] by {
                        if j != i {
                            assert(self.entries@[j] == before_entries[j]);
                        }
                    }
                    assert(self@ =~= before.update(i as int, (before[i as int].0, value@)));
                    lemma_lookup_first(self@, i as int, 0);
                    assert forall|other: Seq<char>| other != key@ implies #[trigger] spec_lookup(
                        self@,
                        other,
                    ) == spec_lookup(before, other) by {
                        lemma_lookup_other_key(before, i as int, value@, other, 0);
                    }
                }
                return Ok(());
            }
            i = i + 1;
        }
        let ghost before = self@;
        self.entries.push((k, v));
        proof {
            assert(self@ =~= before.push((key@, value@)));
            assert forall|other: Seq<char>| other != key@ implies #[trigger] spec_lookup(self@, other)
                == spec_lookup(before, other) by {
                lemma_lookup_push(before, key@, value@, other, 0);
            }
            lemma_lookup_push(before, key@, value@, key@, 0);
        }
        Ok(())
    }

    /// Returns the entries, in the order their keys were first set.
    pub fn entries(&self) -> (r: &Vec<(String, String)>)
        ensures
            r@.map_values(|e: (String, String)| (e.0@, e.1@)) == self@,
    {
        &self.entries
    }

    /// Returns the value of `key`, if it has one.
    pub fn get(&self, key: &str) -> (r: Option<&str>)
        ensures
            spec_lookup(self@, key@) is None ==> r is None,
            spec_lookup(self@, key@) matches Some(v) ==> (r matches Some(s) && s@ == v),
    {
        let k: String = key.to_owned();
        let mut i: usize = 0;
        while i < self.entries.len()
            invariant
                i <= self.entries@.len(),
                k@ == key@,
                forall|j: int| 0 <= j < i ==> (#[trigger] self@[j]).0 != key@,
            decreases self.entries@.len() - i,
        {
            if self.entries[i].0 == k {
                proof {
                    lemma_lookup_first(self@, i as int, 0);
                }
                return Some(self.entries[i].1.as_str());
            }
            i = i + 1;
        }
        proof {
            lemma_lookup_absent(self@, key@, 0);
        }
        None
    }
}

} // verus!
