//! Header collections: ordered name/value entries whose names compare without
//! regard to ASCII letter case.

use vstd::prelude::*;

verus! {

/// The entries of a header collection as mathematical values: name and value,
/// in insertion order.
pub type Entries = Seq<(Seq<char>, Seq<u8>)>;

/// The code point of `c`, with the ASCII capitals mapped onto their small letters.
pub open spec fn fold_code(c: char) -> u32 {
    let code = c as u32;
    if 65 <= code <= 90 {
        (code + 32) as u32
    } else {
        code
    }
}

/// A name with every character folded by [`fold_code`].
pub open spec fn fold_name(name: Seq<char>) -> Seq<u32> {
    Seq::new(name.len(), |i: int| fold_code(name[i]))
}

/// Whether `a` and `b` are the same header name, ASCII letter case aside.
pub open spec fn same_name(a: Seq<char>, b: Seq<char>) -> bool {
    fold_name(a) == fold_name(b)
}

/// The values stored under `name`, in the order in which they were inserted.
pub open spec fn values_of(entries: Entries, name: Seq<char>) -> Seq<Seq<u8>> {
    entries.filter(|e: (Seq<char>, Seq<u8>)| same_name(e.0, name)).map_values(
        |e: (Seq<char>, Seq<u8>)| e.1,
    )
}

/// What a vector of owned entries holds.
pub open spec fn entries_of(owned: Seq<(String, Vec<u8>)>) -> Entries {
    Seq::new(owned.len(), |i: int| (owned[i].0@, owned[i].1@))
}

/// What a vector of owned values holds.
pub open spec fn values_in(owned: Seq<Vec<u8>>) -> Seq<Seq<u8>> {
    Seq::new(owned.len(), |i: int| owned[i]@)
}

/// Appending an entry extends the values of its own name by one, at the end,
/// and leaves those of every other name alone.
pub proof fn lemma_values_of_push(entries: Entries, name: Seq<char>, value: Seq<u8>, asked: Seq<char>)
    ensures
        values_of(entries.push((name, value)), asked) == if same_name(name, asked) {
            values_of(entries, asked).push(value)
        } else {
            values_of(entries, asked)
        },
{
    let keep = |e: (Seq<char>, Seq<u8>)| same_name(e.0, asked);
    let pick = |e: (Seq<char>, Seq<u8>)| e.1;
    let longer = entries.push((name, value));
    assert(longer.drop_last() == entries);
    assert(longer.last() == (name, value));
    reveal_with_fuel(Seq::filter, 2);
    if same_name(name, asked) {
        assert(longer.filter(keep) == entries.filter(keep).push((name, value)));
        assert(entries.filter(keep).push((name, value)).map_values(pick) == entries.filter(
            keep,
        ).map_values(pick).push(value));
    } else {
        assert(longer.filter(keep) == entries.filter(keep));
    }
}

/// Names that differ in letter case only hold the same values.
pub proof fn lemma_values_of_ignores_case(entries: Entries, a: Seq<char>, b: Seq<char>)
    requires
        same_name(a, b),
    ensures
        values_of(entries, a) == values_of(entries, b),
    decreases entries.len(),
{
    if entries.len() > 0 {
        let front = entries.drop_last();
        let last = entries.last();
        lemma_values_of_ignores_case(front, a, b);
        assert(entries == front.push(last));
        lemma_values_of_push(front, last.0, last.1, a);
        lemma_values_of_push(front, last.0, last.1, b);
    }
}

fn folded(c: char) -> (code: u32)
    ensures
        code == fold_code(c),
{
    let code: u32 = c as u32;
    if 65 <= code && code <= 90 {
        code + 32
    } else {
        code
    }
}

fn folded_name(name: &str) -> (codes: Vec<u32>)
    ensures
        codes@ == fold_name(name@),
{
    let mut codes: Vec<u32> = Vec::new();
    for c in it: name.chars()
        invariant
            it.seq() == name@,
            codes@.len() == it.index(),
            forall|k: int| 0 <= k < codes@.len() ==> codes@[k] == fold_code(name@[k]),
    {
        codes.push(folded(c));
    }
    codes
}

fn same_codes(a: &Vec<u32>, b: &Vec<u32>) -> (same: bool)
    ensures
        same == (a@ == b@),
{
    if a.len() != b.len() {
        return false;
    }
    let mut i: usize = 0;
    while i < a.len()
        invariant
            a@.len() == b@.len(),
            i <= a@.len(),
            forall|k: int| 0 <= k < i ==> a@[k] == b@[k],
        decreases a@.len() - i,
    {
        if a[i] != b[i] {
            return false;
        }
        i += 1;
    }
    assert(a@ =~= b@);
    true
}

/// Decides [`same_name`] for two strings.
pub fn names_match(a: &str, b: &str) -> (same: bool)
    ensures
        same == same_name(a@, b@),
{
    let left = folded_name(a);
    let right = folded_name(b);
    same_codes(&left, &right)
}

fn copy_bytes(bytes: &Vec<u8>) -> (copy: Vec<u8>)
    ensures
        copy@ == bytes@,
{
    let copy = bytes.clone();
    assert(copy@ =~= bytes@);
    copy
}

/// An ordered collection of header entries. A name may occur any number of
/// times; its values keep the order in which they were appended.
#[derive(Debug, PartialEq, Eq)]
pub struct HeaderCollection {
    entries: Vec<(String, Vec<u8>)>,
}

impl View for HeaderCollection {
    type V = Entries;

    closed spec fn view(&self) -> Entries {
        entries_of(self.entries@)
    }
}

impl HeaderCollection {
    /// The empty collection.
    pub fn new() -> (headers: HeaderCollection)
        ensures
            headers@ == Seq::<(Seq<char>, Seq<u8>)>::empty(),
    {
        let headers = HeaderCollection { entries: Vec::new() };
        assert(headers@ =~= Seq::<(Seq<char>, Seq<u8>)>::empty());
        headers
    }

    /// The collection that holds `entries`, in their order.
    pub fn from_entries(entries: Vec<(String, Vec<u8>)>) -> (headers: HeaderCollection)
        ensures
            headers@ == entries_of(entries@),
    {
        HeaderCollection { entries }
    }

    /// The entries, in their order.
    pub fn entries(&self) -> (entries: &Vec<(String, Vec<u8>)>)
        ensures
            entries_of(entries@) == self@,
    {
        &self.entries
    }

    /// Gives the entries up, in their order.
    pub fn into_entries(self) -> (entries: Vec<(String, Vec<u8>)>)
        ensures
            entries_of(entries@) == self@,
    {
        self.entries
    }

    /// The number of entries, a repeated name counted each time.
    pub fn len(&self) -> (n: usize)
        ensures
            n == self@.len(),
    {
        self.entries.len()
    }

    /// Whether there is no entry at all.
    pub fn is_empty(&self) -> (empty: bool)
        ensures
            empty == (self@.len() == 0),
    {
        self.entries.len() == 0
    }

    /// Adds one entry behind all others.
    pub fn append(&mut self, name: String, value: Vec<u8>)
        ensures
            final(self)@ == old(self)@.push((name@, value@)),
    {
        self.entries.push((name, value));
        assert(self@ =~= old(self)@.push((name@, value@)));
    }

    /// The values stored under `name`, whatever its letter case, oldest first.
    pub fn get(&self, name: &str) -> (values: Vec<Vec<u8>>)
        ensures
            values_in(values@) == values_of(self@, name@),
    {
        let asked = folded_name(name);
        let mut values: Vec<Vec<u8>> = Vec::new();
        let mut i: usize = 0;
        while i < self.entries.len()
            invariant
                i <= self.entries@.len(),
                asked@ == fold_name(name@),
                values_in(values@) == values_of(self@.take(i as int), name@),
            decreases self.entries@.len() - i,
        {
            let own = folded_name(self.entries[i].0.as_str());
            proof {
                assert(self@.take(i + 1) == self@.take(i as int).push(self@[i as int]));
                lemma_values_of_push(self@.take(i as int), self@[i as int].0, self@[i as int].1, name@);
            }
            if same_codes(&own, &asked) {
                let ghost before = values@;
                let value = copy_bytes(&self.entries[i].1);
                values.push(value);
                assert(values_in(values@) =~= values_in(before).push(value@));
            }
            i += 1;
        }
        assert(self@.take(self@.len() as int) == self@);
        values
    }
}

impl Clone for HeaderCollection {
    /// A fresh collection with the same entries in the same order.
    fn clone(&self) -> (copy: HeaderCollection)
        ensures
            copy@ == self@,
    {
        let mut entries: Vec<(String, Vec<u8>)> = Vec::with_capacity(self.entries.len());
        let mut i: usize = 0;
        while i < self.entries.len()
            invariant
                i <= self.entries@.len(),
                entries@.len() == i,
                entries_of(entries@) == self@.take(i as int),
            decreases self.entries@.len() - i,
        {
            let name = self.entries[i].0.clone();
            let value = copy_bytes(&self.entries[i].1);
            let ghost before = entries@;
            entries.push((name, value));
            assert forall|k: int| 0 <= k < i + 1 implies entries_of(entries@)[k] == self@[k] by {
                if k < i {
                    assert(entries_of(before)[k] == self@.take(i as int)[k]);
                    assert(entries@[k] == before[k]);
                } else {
                    assert(entries@[k] == (name, value));
                }
            }
            assert(entries_of(entries@) =~= self@.take(i + 1));
            i += 1;
        }
        assert(self@.take(self@.len() as int) == self@);
        HeaderCollection { entries }
    }
}

} // verus!
