//! Models of the C++ standard-library values that cross the boundary:
//! `std::string`, `std::vector<std::string>` and
//! `std::map<std::string, std::string>`.
//!
//! The model holds the text itself, so every accessor has an exact contract.
//! Lengths are measured in characters.

use vstd::prelude::*;
use vstd::string::StrSliceExecFns;

use crate::error::{Error, RtcResult};

verus! {

/// An owned C++ string.
pub struct CxxString {
    text: String,
}

impl View for CxxString {
    type V = Seq<char>;

    closed spec fn view(&self) -> Seq<char> {
        self.text@
    }
}

impl CxxString {
    /// An empty string.
    pub fn new() -> (r: CxxString)
        ensures
            r@ == Seq::<char>::empty(),
    {
        CxxString { text: String::new() }
    }

    /// A copy of the given text.
    pub fn from_str(s: &str) -> (r: CxxString)
        ensures
            r@ == s@,
    {
        CxxString { text: s.to_owned() }
    }

    /// The number of characters of the held text.
    pub fn len(&self) -> (r: usize)
        ensures
            r == self@.len(),
    {
        self.text.as_str().unicode_len()
    }

    /// Whether no text is held.
    pub fn is_empty(&self) -> (r: bool)
        ensures
            r == (self@.len() == 0),
    {
        self.text.as_str().unicode_len() == 0
    }

    /// The held text as an owned Rust string.
    pub fn to_string(&self) -> (r: RtcResult<String>)
        ensures
            r is Ok,
            r->Ok_0@ == self@,
    {
        Ok(self.text.clone())
    }

    /// Appends text at the end.
    pub fn append(&mut self, s: &str)
        ensures
            final(self)@ == old(self)@ + s@,
    {
        self.text.append(s);
    }

    /// A borrow-only view of the held text.
    pub fn as_ptr(&self) -> (r: CxxStringRef<'_>)
        ensures
            r@ == self@,
    {
        CxxStringRef { target: &self.text }
    }
}

/// A borrowed view of a C++ string, valid only within the borrow.
pub struct CxxStringRef<'a> {
    target: &'a String,
}

impl<'a> View for CxxStringRef<'a> {
    type V = Seq<char>;

    closed spec fn view(&self) -> Seq<char> {
        self.target@
    }
}

impl<'a> CxxStringRef<'a> {
    /// Wraps a borrowed string.
    pub fn from_ptr(target: &'a CxxString) -> (r: CxxStringRef<'a>)
        ensures
            r@ == target@,
    {
        CxxStringRef { target: &target.text }
    }

    /// The number of characters of the viewed text.
    pub fn len(&self) -> (r: usize)
        ensures
            r == self@.len(),
    {
        self.target.as_str().unicode_len()
    }

    /// Whether no text is held.
    pub fn is_empty(&self) -> (r: bool)
        ensures
            r == (self@.len() == 0),
    {
        self.target.as_str().unicode_len() == 0
    }

    /// The viewed text as an owned Rust string.
    pub fn to_string(&self) -> (r: RtcResult<String>)
        ensures
            r is Ok,
            r->Ok_0@ == self@,
    {
        Ok(self.target.clone())
    }
}

/// An owned C++ vector of strings.
pub struct StringVector {
    items: Vec<String>,
}

impl View for StringVector {
    type V = Seq<Seq<char>>;

    closed spec fn view(&self) -> Seq<Seq<char>> {
        self.items.deep_view()
    }
}

impl StringVector {
    /// A vector of `size` empty strings; a negative size gives an empty
    /// vector.
    pub fn new(size: i32) -> (r: StringVector)
        ensures
            size >= 0 ==> r@.len() == size,
            size < 0 ==> r@.len() == 0,
            forall|i: int| 0 <= i < r@.len() ==> (#[trigger] r@[i]).len() == 0,
    {
        let n: usize = if size > 0 {
            size as usize
        } else {
            0
        };
        let mut items: Vec<String> = Vec::new();
        let mut i: usize = 0;
        while i < n
            invariant
                items@.len() == i,
                i <= n,
                forall|j: int| 0 <= j < i ==> (#[trigger] items@[j])@.len() == 0,
            decreases n - i,
        {
            items.push(String::new());
            i = i + 1;
        }
        let r = StringVector { items };
        proof {
            assert forall|j: int| 0 <= j < r@.len() implies (#[trigger] r@[j]).len() == 0 by {
                assert(r@[j] == items@[j]@);
            }
        }
        r
    }

    /// The number of elements.
    pub fn len(&self) -> (r: usize)
        ensures
            r == self@.len(),
    {
        self.items.len()
    }

    /// Whether there are no elements.
    pub fn is_empty(&self) -> (r: bool)
        ensures
            r == (self@.len() == 0),
    {
        self.items.len() == 0
    }

    /// Appends a copy of the given string.
    pub fn push(&mut self, value: &CxxString)
        ensures
            final(self)@ == old(self)@.push(value@),
    {
        self.items.push(value.text.clone());
        proof {
            assert(final(self)@ =~= old(self)@.push(value@));
        }
    }

    /// A borrow-only view of the vector.
    pub fn as_ptr(&self) -> (r: StringVectorRef<'_>)
        ensures
            r@ == self@,
    {
        StringVectorRef { target: &self.items }
    }

    /// The element at `index`, or an out-of-range error exactly when `index`
    /// is not below the length.
    pub fn get(&self, index: usize) -> (r: RtcResult<String>)
        ensures
            index < self@.len() ==> (r is Ok && r->Ok_0@ == self@[index as int]),
            index >= self@.len() ==> (r matches Err(Error::OutOfIndex(i)) && i == index),
    {
        if index >= self.items.len() {
            return Err(Error::OutOfIndex(index));
        }
        let s = self.items[index].clone();
        Ok(s)
    }
}

/// A borrowed view of a C++ vector of strings.
pub struct StringVectorRef<'a> {
    target: &'a Vec<String>,
}

impl<'a> View for StringVectorRef<'a> {
    type V = Seq<Seq<char>>;

    closed spec fn view(&self) -> Seq<Seq<char>> {
        self.target.deep_view()
    }
}

impl<'a> StringVectorRef<'a> {
    /// Wraps a borrowed vector.
    pub fn from_raw(target: &'a StringVector) -> (r: StringVectorRef<'a>)
        ensures
            r@ == target@,
    {
        StringVectorRef { target: &target.items }
    }

    /// The number of elements.
    pub fn len(&self) -> (r: usize)
        ensures
            r == self@.len(),
    {
        self.target.len()
    }

    /// Whether there are no elements.
    pub fn is_empty(&self) -> (r: bool)
        ensures
            r == (self@.len() == 0),
    {
        self.target.len() == 0
    }
}

/// One key/value pair of a string map.
pub struct MapEntry {
    pub key: String,
    pub value: String,
}

/// The pairs of a map view, keyed in insertion order.
pub open spec fn entry_views(s: Seq<MapEntry>) -> Seq<(Seq<char>, Seq<char>)> {
    s.map_values(|e: MapEntry| (e.key@, e.value@))
}

/// Whether a key occurs among the pairs.
pub open spec fn has_key(s: Seq<(Seq<char>, Seq<char>)>, k: Seq<char>) -> bool {
    exists|i: int| 0 <= i < s.len() && (#[trigger] s[i]).0 == k
}

/// An owned C++ map from strings to strings.
///
/// Entries are held in insertion order; a key occurs at most once.
pub struct MapStringString {
    entries: Vec<MapEntry>,
}

impl View for MapStringString {
    type V = Seq<(Seq<char>, Seq<char>)>;

    closed spec fn view(&self) -> Seq<(Seq<char>, Seq<char>)> {
        entry_views(self.entries@)
    }
}

impl MapStringString {
    /// Distinct keys throughout.
    pub open spec fn keys_unique(self) -> bool {
        forall|i: int, j: int|
            0 <= i < j < self@.len() ==> (#[trigger] self@[i]).0 != (#[trigger] self@[j]).0
    }

    /// An empty map.
    pub fn new() -> (r: MapStringString)
        ensures
            r@.len() == 0,
            r.keys_unique(),
    {
        MapStringString { entries: Vec::new() }
    }

    /// Wraps borrowed native map storage. The model owns its entries, so
    /// this is the constructor of an empty map under another name.
    pub fn from_raw() -> (r: MapStringString)
        ensures
            r@.len() == 0,
            r.keys_unique(),
    {
        MapStringString { entries: Vec::new() }
    }

    /// The number of entries.
    pub fn len(&self) -> (r: usize)
        ensures
            r == self@.len(),
    {
        self.entries.len()
    }

    /// Whether there are no entries.
    pub fn is_empty(&self) -> (r: bool)
        ensures
            r == (self@.len() == 0),
    {
        self.entries.len() == 0
    }

    /// Sets `key` to `value`: replaces the value in place when the key is
    /// present, appends a new entry otherwise. Key uniqueness is kept.
    pub fn set(&mut self, key: &str, value: &str)
        requires
            old(self).keys_unique(),
        ensures
            final(self).keys_unique(),
            has_key(old(self)@, key@) ==> final(self)@.len() == old(self)@.len(),
            !has_key(old(self)@, key@) ==> final(self)@ == old(self)@.push((key@, value@)),
            has_key(final(self)@, key@),
            forall|i: int|
                0 <= i < final(self)@.len() && (#[trigger] final(self)@[i]).0 == key@
                    ==> final(self)@[i].1 == value@,
            forall|i: int|
                0 <= i < old(self)@.len() && (#[trigger] old(self)@[i]).0 != key@
                    ==> final(self)@[i] == old(self)@[i],
    {
        let n = self.entries.len();
        let mut i: usize = 0;
        while i < n
            invariant
                n == self@.len(),
                0 <= i <= n,
                *self == *old(self),
                self@ == old(self)@,
                self.keys_unique(),
                forall|j: int| 0 <= j < i ==> (#[trigger] self@[j]).0 != key@,
            decreases n - i,
        {
            if string_eq_str(&self.entries[i].key, key) {
                let ghost before = self@;
                self.entries.set(
                    i,
                    MapEntry { key: key.to_owned(), value: value.to_owned() },
                );
                proof {
                    assert(before[i as int].0 == key@);
                    assert(self@ =~= before.update(i as int, (key@, value@)));
                    assert(self@[i as int].0 == key@);
                    assert forall|a: int|
                        0 <= a < self@.len() && (#[trigger] self@[a]).0 == key@ implies self@[a].1
                        == value@ by {
                        if a != i as int {
                            assert(self@[a] == before[a]);
                            if a < i as int {
                                assert(before[a].0 != before[i as int].0);
                            } else {
                                assert(before[i as int].0 != before[a].0);
                            }
                        }
                    }
                    assert forall|a: int, b: int|
                        0 <= a < b < self@.len() implies (#[trigger] self@[a]).0 != (
                        #[trigger] self@[b]).0 by {
                        assert(before[a].0 != before[b].0);
                        if a == i as int {
                            assert(self@[b] == before[b]);
                        } else if b == i as int {
                            assert(self@[a] == before[a]);
                        }
                    }
                }
                return ;
            }
            i = i + 1;
        }
        let ghost before = self@;
        self.entries.push(MapEntry { key: key.to_owned(), value: value.to_owned() });
        proof {
            assert(self@ =~= before.push((key@, value@)));
            assert(self@[before.len() as int].0 == key@);
            assert forall|a: int, b: int|
                0 <= a < b < self@.len() implies (#[trigger] self@[a]).0 != (
                #[trigger] self@[b]).0 by {
                if b < before.len() {
                    assert(before[a].0 != before[b].0);
                } else {
                    assert(self@[a] == before[a]);
                    assert(before[a].0 != key@);
                }
            }
        }
    }

    /// The value stored under `key`, when the key is present.
    pub fn get(&self, key: &str) -> (r: Option<String>)
        requires
            self.keys_unique(),
        ensures
            r is Some <==> has_key(self@, key@),
            r matches Some(v) ==> exists|i: int|
                0 <= i < self@.len() && (#[trigger] self@[i]).0 == key@ && self@[i].1 == v@,
    {
        let n = self.entries.len();
        let mut i: usize = 0;
        while i < n
            invariant
                n == self@.len(),
                0 <= i <= n,
                forall|j: int| 0 <= j < i ==> (#[trigger] self@[j]).0 != key@,
            decreases n - i,
        {
            if string_eq_str(&self.entries[i].key, key) {
                let v = self.entries[i].value.clone();
                proof {
                    assert(self@[i as int].0 == key@ && self@[i as int].1 == v@);
                }
                return Some(v);
            }
            i = i + 1;
        }
        None
    }

    /// Appends one entry without a key scan; for copying from a map whose
    /// keys are already unique.
    pub(crate) fn push_entry(&mut self, key: String, value: String)
        ensures
            final(self)@ == old(self)@.push((key@, value@)),
    {
        let ghost before = self@;
        self.entries.push(MapEntry { key, value });
        proof {
            assert(self@ =~= before.push((key@, value@)));
        }
    }

    /// An iterator over a snapshot of the entries, in insertion order.
    pub fn iter(&self) -> (r: MapStringStringIter)
        ensures
            r.remaining() == self@,
    {
        let mut snapshot: Vec<(String, String)> = Vec::new();
        let n = self.entries.len();
        let mut i: usize = 0;
        while i < n
            invariant
                n == self@.len(),
                0 <= i <= n,
                snapshot.deep_view() =~= self@.subrange(0, i as int),
            decreases n - i,
        {
            let pair = (self.entries[i].key.clone(), self.entries[i].value.clone());
            let ghost prevseq = snapshot@;
            let ghost prev = snapshot.deep_view();
            snapshot.push(pair);
            proof {
                assert(prev.len() == i);
                assert(prevseq.len() == i);
                assert(snapshot@ == prevseq.push(pair));
                assert(pair.deep_view() == (self@[i as int].0, self@[i as int].1));
                assert(self@[i as int] =~= (self@[i as int].0, self@[i as int].1));
                assert forall|k: int| 0 <= k < i + 1 implies snapshot.deep_view()[k]
                    == self@.subrange(0, i + 1)[k] by {
                    if k < i {
                        assert(snapshot@[k] == prevseq[k]);
                        assert(snapshot.deep_view()[k] == prev[k]);
                        assert(prev[k] == self@.subrange(0, i as int)[k]);
                    } else {
                        assert(snapshot@[k] == pair);
                    }
                }
                assert(snapshot.deep_view() =~= self@.subrange(0, i + 1));
            }
            i = i + 1;
        }
        proof {
            assert(self@.subrange(0, n as int) =~= self@);
        }
        MapStringStringIter { snapshot, next: 0 }
    }
}

/// Compares an owned string with a borrowed one.
fn string_eq_str(a: &String, b: &str) -> (r: bool)
    ensures
        r == (a@ == b@),
{
    let other = b.to_owned();
    a.eq(&other)
}

/// An iterator over the entries of a string map, yielding each key and
/// value once, in insertion order.
pub struct MapStringStringIter {
    snapshot: Vec<(String, String)>,
    next: usize,
}

impl MapStringStringIter {
    /// The entries not yet yielded.
    pub closed spec fn remaining(self) -> Seq<(Seq<char>, Seq<char>)> {
        if self.next <= self.snapshot.deep_view().len() {
            self.snapshot.deep_view().skip(self.next as int)
        } else {
            Seq::empty()
        }
    }

    /// The next entry, or `None` when every entry has been yielded.
    pub fn next(&mut self) -> (r: Option<(String, String)>)
        ensures
            old(self).remaining().len() == 0 ==> (r is None && final(self).remaining()
                == old(self).remaining()),
            old(self).remaining().len() > 0 ==> (r matches Some(p) && (p.0@, p.1@)
                == old(self).remaining()[0] && final(self).remaining() == old(
                self,
            ).remaining().skip(1)),
    {
        if self.next >= self.snapshot.len() {
            proof {
                assert(old(self).remaining().len() == 0);
            }
            return None;
        }
        let pair = (self.snapshot[self.next].0.clone(), self.snapshot[self.next].1.clone());
        self.next = self.next + 1;
        proof {
            assert(old(self).remaining()[0] == old(self).snapshot.deep_view()[old(self).next as int]);
            assert(final(self).remaining() =~= old(self).remaining().skip(1));
        }
        Some(pair)
    }
}

} // verus!

