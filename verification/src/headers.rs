//! The ordered, case-insensitive list of HTTP headers and its model.

use vstd::prelude::*;
use crate::text::{IntoText, same_name, to_lowercase};
use vstd::std_specs::iter::IteratorSpec;

verus! {

/// The model of a header list: its (name, value) pairs, in order.
pub type HeaderEntries = Seq<(Seq<char>, Seq<char>)>;

/// Index of the first entry whose name is the same as `name` (ignoring case).
pub open spec fn first_match(hs: HeaderEntries, name: Seq<char>) -> Option<int>
    decreases hs.len(),
{
    if hs.len() == 0 {
        None
    } else if same_name(hs[0].0, name) {
        Some(0)
    } else {
        match first_match(hs.drop_first(), name) {
            Some(i) => Some(i + 1),
            None => None,
        }
    }
}

/// Whether some entry has the same name as `name` (ignoring case).
pub open spec fn has_name(hs: HeaderEntries, name: Seq<char>) -> bool {
    exists|i: int| 0 <= i < hs.len() && same_name(#[trigger] hs[i].0, name)
}

/// The value of the first entry named `name`, if any.
pub open spec fn lookup(hs: HeaderEntries, name: Seq<char>) -> Option<Seq<char>> {
    match first_match(hs, name) {
        Some(i) => Some(hs[i].1),
        None => None,
    }
}

/// The values of all entries named `name`, in order.
pub open spec fn values_of(hs: HeaderEntries, name: Seq<char>) -> Seq<Seq<char>>
    decreases hs.len(),
{
    if hs.len() == 0 {
        Seq::empty()
    } else {
        let rest = values_of(hs.drop_last(), name);
        if same_name(hs.last().0, name) {
            rest.push(hs.last().1)
        } else {
            rest
        }
    }
}

/// The list after setting `name` to `value`: the first entry named `name`
/// keeps its name and takes the new value; without such an entry the pair is
/// appended.
pub open spec fn with_set(hs: HeaderEntries, name: Seq<char>, value: Seq<char>) -> HeaderEntries {
    match first_match(hs, name) {
        Some(i) => hs.update(i, (hs[i].0, value)),
        None => hs.push((name, value)),
    }
}

/// The list after removing the first entry named `name`, if any.
pub open spec fn with_removed(hs: HeaderEntries, name: Seq<char>) -> HeaderEntries {
    match first_match(hs, name) {
        Some(i) => hs.remove(i),
        None => hs,
    }
}

/// `first_match` finds the first entry with the name, and only it.
pub proof fn lemma_first_match(hs: HeaderEntries, name: Seq<char>)
    ensures
        match first_match(hs, name) {
            Some(i) => {
                &&& 0 <= i < hs.len()
                &&& same_name(hs[i].0, name)
                &&& forall|j: int| 0 <= j < i ==> !same_name(#[trigger] hs[j].0, name)
            },
            None => forall|j: int| 0 <= j < hs.len() ==> !same_name(#[trigger] hs[j].0, name),
        },
    decreases hs.len(),
{
    if hs.len() > 0 && !same_name(hs[0].0, name) {
        let rest = hs.drop_first();
        lemma_first_match(rest, name);
        assert forall|j: int| 1 <= j < hs.len() implies hs[j].0 == #[trigger] rest[j - 1].0 by {}
        match first_match(rest, name) {
            Some(i) => {
                assert forall|j: int| 0 <= j < i + 1 implies !same_name(#[trigger] hs[j].0, name) by {
                    if j > 0 {
                        assert(hs[j].0 == rest[j - 1].0);
                    }
                }
            },
            None => {
                assert forall|j: int| 0 <= j < hs.len() implies !same_name(#[trigger] hs[j].0, name) by {
                    if j > 0 {
                        assert(hs[j].0 == rest[j - 1].0);
                    }
                }
            },
        }
    }
}

/// The first entry named `name` is at `i` when `i` holds the name and no
/// earlier entry does; there is none when no entry holds it.
pub proof fn lemma_first_match_at(hs: HeaderEntries, name: Seq<char>, i: int)
    requires
        0 <= i <= hs.len(),
        forall|j: int| 0 <= j < i ==> !same_name(#[trigger] hs[j].0, name),
    ensures
        i < hs.len() && same_name(hs[i].0, name) ==> first_match(hs, name) == Some(i),
        i == hs.len() ==> first_match(hs, name) is None,
{
    lemma_first_match(hs, name);
    if let Some(k) = first_match(hs, name) {
        if i < hs.len() && same_name(hs[i].0, name) {
            if k < i {
                assert(!same_name(hs[k].0, name));
            }
            if k > i {
                assert(!same_name(hs[i].0, name));
            }
        }
    }
}

/// Ordered list of HTTP headers.
///
/// Header name lookups are case-insensitive. Duplicate names are allowed,
/// use [`get_all`](Headers::get_all) to retrieve every value for a given name.
#[derive(Debug, Clone, PartialEq, Eq)]
pub struct Headers {
    inner: Vec<(String, String)>,
}

impl View for Headers {
    type V = HeaderEntries;

    closed spec fn view(&self) -> HeaderEntries {
        self.inner@.map_values(|e: (String, String)| (e.0@, e.1@))
    }
}

impl Headers {
    /// Creates an empty header list.
    pub fn new() -> (r: Self)
        ensures
            r@ == Seq::<(Seq<char>, Seq<char>)>::empty(),
    {
        let r = Self { inner: Vec::new() };
        assert(r@ =~= Seq::<(Seq<char>, Seq<char>)>::empty());
        r
    }

    /// Index of the first entry named `name` (ignoring case).
    fn position(&self, name: &str) -> (r: Option<usize>)
        ensures
            match r {
                Some(i) => first_match(self@, name@) == Some(i as int),
                None => first_match(self@, name@) is None,
            },
    {
        let name_lower = to_lowercase(name);
        let len = self.inner.len();
        let mut i: usize = 0;
        while i < len
            invariant
                len == self.inner.len(),
                self@.len() == len,
                0 <= i <= len,
                name_lower@ == crate::text::lowercase(name@),
                forall|j: int| 0 <= j < i ==> !same_name(#[trigger] self@[j].0, name@),
            decreases len - i,
        {
            let entry_lower = to_lowercase(self.inner[i].0.as_str());
            assert(self@[i as int].0 == self.inner@[i as int].0@);
            if entry_lower == name_lower {
                proof {
                    lemma_first_match_at(self@, name@, i as int);
                }
                return Some(i);
            }
            i += 1;
        }
        proof {
            lemma_first_match_at(self@, name@, i as int);
        }
        None
    }

    /// Returns the value of the first header matching `name` (case-insensitive).
    pub fn get(&self, name: &str) -> (r: Option<&str>)
        ensures
            match lookup(self@, name@) {
                Some(v) => r is Some && r.unwrap()@ == v,
                None => r is None,
            },
    {
        match self.position(name) {
            Some(i) => {
                proof {
                    lemma_first_match(self@, name@);
                }
                Some(self.inner[i].1.as_str())
            },
            None => None,
        }
    }

    /// Returns all values for headers matching `name` (case-insensitive).
    pub fn get_all(&self, name: &str) -> (r: Vec<&str>)
        ensures
            r@.map_values(|v: &str| v@) == values_of(self@, name@),
    {
        let name_lower = to_lowercase(name);
        let len = self.inner.len();
        let mut r: Vec<&str> = Vec::new();
        let mut i: usize = 0;
        while i < len
            invariant
                len == self.inner.len(),
                self@.len() == len,
                0 <= i <= len,
                name_lower@ == crate::text::lowercase(name@),
                r@.map_values(|v: &str| v@) == values_of(self@.take(i as int), name@),
            decreases len - i,
        {
            let entry_lower = to_lowercase(self.inner[i].0.as_str());
            assert(self@.take(i + 1).drop_last() =~= self@.take(i as int));
            assert(self@.take(i + 1).last() == self@[i as int]);
            assert(self@[i as int] == (self.inner@[i as int].0@, self.inner@[i as int].1@));
            let ghost before = r@;
            if entry_lower == name_lower {
                r.push(self.inner[i].1.as_str());
                assert(r@.map_values(|v: &str| v@) =~= before.map_values(|v: &str| v@).push(
                    self@[i as int].1,
                ));
            }
            i += 1;
        }
        assert(self@.take(len as int) =~= self@);
        r
    }

    /// Returns `true` if a header with the given `name` exists (case-insensitive).
    pub fn contains(&self, name: &str) -> (r: bool)
        ensures
            r == has_name(self@, name@),
    {
        proof {
            lemma_first_match(self@, name@);
        }
        self.position(name).is_some()
    }

    /// Sets the value of the first header matching `name` or appends a new one.
    pub fn set<N: IntoText, V: IntoText>(&mut self, name: N, value: V)
        ensures
            final(self)@ == with_set(old(self)@, name.text_view(), value.text_view()),
    {
        let name = name.into_text();
        let value = value.into_text();
        match self.position(name.as_str()) {
            Some(i) => {
                proof {
                    lemma_first_match(self@, name@);
                }
                let kept = self.inner[i].0.clone();
                self.inner.set(i, (kept, value));
                assert(self@ =~= with_set(old(self)@, name@, value@));
            },
            None => {
                self.inner.push((name, value));
                assert(self@ =~= with_set(old(self)@, name@, value@));
            },
        }
    }

    /// Appends a header even if one with the same name already exists.
    pub fn push<N: IntoText, V: IntoText>(&mut self, name: N, value: V)
        ensures
            final(self)@ == old(self)@.push((name.text_view(), value.text_view())),
    {
        let name = name.into_text();
        let value = value.into_text();
        self.inner.push((name, value));
        assert(self@ =~= old(self)@.push((name@, value@)));
    }

    /// Removes and returns the value of the first header matching `name`.
    pub fn remove(&mut self, name: &str) -> (r: Option<String>)
        ensures
            final(self)@ == with_removed(old(self)@, name@),
            match lookup(old(self)@, name@) {
                Some(v) => r is Some && r.unwrap()@ == v,
                None => r is None,
            },
    {
        match self.position(name) {
            Some(i) => {
                proof {
                    lemma_first_match(self@, name@);
                }
                let removed = self.inner.remove(i);
                assert(self@ =~= with_removed(old(self)@, name@));
                Some(removed.1)
            },
            None => None,
        }
    }

    /// Iterates over the (name, value) pairs in order.
    pub fn iter(&self) -> (r: std::slice::Iter<'_, (String, String)>)
        ensures
            r.remaining().map_values(|e: &(String, String)| (e.0@, e.1@)) == self@,
    {
        let r = self.inner.as_slice().iter();
        assert(r.remaining().map_values(|e: &(String, String)| (e.0@, e.1@)) =~= self@);
        r
    }

    /// Iterates over the (name, value) pairs in order, allowing each to be
    /// modified in place. Calls `slice::iter_mut`; the contract claims what
    /// its documentation gives: the iterator hands out one mutable reference
    /// per entry, in order, each to that entry's current value, and what is
    /// written through the i-th reference is the i-th entry afterwards; the
    /// number of entries does not change.
    #[verifier::external_body]
    pub fn iter_mut(&mut self) -> (r: std::slice::IterMut<'_, (String, String)>)
        ensures
            final(self)@.len() == old(self)@.len(),
            r.remaining().len() == old(self)@.len(),
            forall|i: int| 0 <= i < old(self)@.len() ==>
                ((*r.remaining()[i]).0@, (*r.remaining()[i]).1@) == old(self)@[i],
            forall|i: int| 0 <= i < old(self)@.len() ==>
                final(self)@[i] == ((*final(r.remaining()[i])).0@, (*final(r.remaining()[i])).1@),
    {
        self.inner.iter_mut()
    }

    /// The (name, value) pairs as a slice, in order.
    pub fn as_slice(&self) -> (r: &[(String, String)])
        ensures
            r@.map_values(|e: (String, String)| (e.0@, e.1@)) == self@,
    {
        self.inner.as_slice()
    }

    /// Returns the number of headers.
    pub fn len(&self) -> (r: usize)
        ensures
            r == self@.len(),
    {
        self.inner.len()
    }

    /// Returns `true` if there are no headers.
    pub fn is_empty(&self) -> (r: bool)
        ensures
            r == (self@.len() == 0),
    {
        self.inner.len() == 0
    }
}


impl Default for Headers {
    fn default() -> (r: Self)
        ensures
            r@ == Seq::<(Seq<char>, Seq<char>)>::empty(),
    {
        Headers::new()
    }
}

impl std::ops::Deref for Headers {
    type Target = [(String, String)];

    fn deref(&self) -> (r: &[(String, String)])
        ensures
            r@.map_values(|e: (String, String)| (e.0@, e.1@)) == self@,
    {
        self.inner.as_slice()
    }
}

impl IntoIterator for Headers {
    type Item = (String, String);
    type IntoIter = std::vec::IntoIter<(String, String)>;

    fn into_iter(self) -> (r: std::vec::IntoIter<(String, String)>)
        ensures
            r.remaining().map_values(|e: (String, String)| (e.0@, e.1@)) == self@,
    {
        self.inner.into_iter()
    }
}

impl<'a> IntoIterator for &'a Headers {
    type Item = &'a (String, String);
    type IntoIter = std::slice::Iter<'a, (String, String)>;

    fn into_iter(self) -> (r: std::slice::Iter<'a, (String, String)>)
        ensures
            r.remaining().map_values(|e: &(String, String)| (e.0@, e.1@)) == self@,
    {
        self.iter()
    }
}

impl<'a> IntoIterator for &'a mut Headers {
    type Item = &'a mut (String, String);
    type IntoIter = std::slice::IterMut<'a, (String, String)>;

    fn into_iter(self) -> (r: std::slice::IterMut<'a, (String, String)>)
        ensures
            final(self)@.len() == old(self)@.len(),
            r.remaining().len() == old(self)@.len(),
            forall|i: int| 0 <= i < old(self)@.len() ==>
                ((*r.remaining()[i]).0@, (*r.remaining()[i]).1@) == old(self)@[i],
            forall|i: int| 0 <= i < old(self)@.len() ==>
                final(self)@[i] == ((*final(r.remaining()[i])).0@, (*final(r.remaining()[i])).1@),
    {
        self.iter_mut()
    }
}

impl From<Vec<(String, String)>> for Headers {
    fn from(vec: Vec<(String, String)>) -> (r: Headers)
        ensures
            r@ == vec@.map_values(|e: (String, String)| (e.0@, e.1@)),
    {
        Headers { inner: vec }
    }
}

impl vstd::std_specs::convert::FromSpecImpl<Vec<(String, String)>> for Headers {
    open spec fn obeys_from_spec() -> bool {
        true
    }

    closed spec fn from_spec(vec: Vec<(String, String)>) -> Headers {
        Headers { inner: vec }
    }
}

impl From<Headers> for Vec<(String, String)> {
    fn from(headers: Headers) -> (r: Vec<(String, String)>)
        ensures
            r@.map_values(|e: (String, String)| (e.0@, e.1@)) == headers@,
    {
        headers.inner
    }
}

impl vstd::std_specs::convert::FromSpecImpl<Headers> for Vec<(String, String)> {
    open spec fn obeys_from_spec() -> bool {
        true
    }

    closed spec fn from_spec(headers: Headers) -> Vec<(String, String)> {
        headers.inner
    }
}

} // verus!
