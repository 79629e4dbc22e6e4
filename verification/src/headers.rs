//! The extra headers of an upload request: a mapping from header names to
//! values in which no name occurs twice.

use vstd::prelude::*;
use vstd::string::*;
use crate::text::same_text;

verus! {

/// Headers as mathematics: pairs of name and value, in stored order.
pub type HeaderSeq = Seq<(Seq<char>, Seq<char>)>;

/// No name occurs twice in `headers`.
pub open spec fn distinct_names(headers: HeaderSeq) -> bool {
    forall|i: int, j: int| 0 <= i < j < headers.len() ==> headers[i].0 != headers[j].0
}

/// The index of the first header at or after `from` that is named `name`, or
/// the number of headers where there is none.
pub open spec fn name_index(headers: HeaderSeq, name: Seq<char>, from: int) -> int
    decreases headers.len() - from,
{
    if 0 <= from < headers.len() {
        if headers[from].0 == name {
            from
        } else {
            name_index(headers, name, from + 1)
        }
    } else {
        headers.len() as int
    }
}

/// The value stored under `name`, if there is one.
pub open spec fn header_value(headers: HeaderSeq, name: Seq<char>) -> Option<Seq<char>> {
    let at = name_index(headers, name, 0);
    if at < headers.len() {
        Some(headers[at].1)
    } else {
        None
    }
}

/// `headers` after `value` was stored under `name`: a header of that name
/// keeps its place and gets the new value, a new name goes to the end.
pub open spec fn with_header(headers: HeaderSeq, name: Seq<char>, value: Seq<char>) -> HeaderSeq {
    let at = name_index(headers, name, 0);
    if at < headers.len() {
        headers.update(at, (name, value))
    } else {
        headers.push((name, value))
    }
}

/// The pairs of `pairs` as mathematics.
pub open spec fn pairs_view(pairs: Seq<(String, String)>) -> HeaderSeq {
    pairs.map_values(|pair: (String, String)| (pair.0@, pair.1@))
}

/// `name_index` finds the first header of the name, and where it finds none
/// there is none.
pub proof fn lemma_name_index(headers: HeaderSeq, name: Seq<char>, from: int)
    requires
        0 <= from <= headers.len(),
    ensures
        from <= name_index(headers, name, from) <= headers.len(),
        name_index(headers, name, from) < headers.len() ==> headers[name_index(
            headers,
            name,
            from,
        )].0 == name,
        forall|i: int| from <= i < name_index(headers, name, from) ==> headers[i].0 != name,
    decreases headers.len() - from,
{
    if from < headers.len() && headers[from].0 != name {
        lemma_name_index(headers, name, from + 1);
    }
}

/// Storing a header keeps the names distinct, and afterwards the name has
/// the value stored.
pub proof fn lemma_with_header(headers: HeaderSeq, name: Seq<char>, value: Seq<char>)
    requires
        distinct_names(headers),
    ensures
        distinct_names(with_header(headers, name, value)),
        header_value(with_header(headers, name, value), name) == Some(value),
{
    lemma_name_index(headers, name, 0);
    let after = with_header(headers, name, value);
    lemma_name_index(after, name, 0);
    let at = name_index(headers, name, 0);
    assert(after[at].0 == name);
}

/// Storing a header leaves every other name as it was.
pub proof fn lemma_with_header_others(
    headers: HeaderSeq,
    name: Seq<char>,
    value: Seq<char>,
    other: Seq<char>,
)
    requires
        other != name,
    ensures
        header_value(with_header(headers, name, value), other) == header_value(headers, other),
{
    let after = with_header(headers, name, value);
    lemma_name_index(headers, name, 0);
    lemma_name_index(headers, other, 0);
    lemma_name_index(after, other, 0);
    let before_at = name_index(headers, other, 0);
    let after_at = name_index(after, other, 0);
    if before_at < headers.len() {
        assert(after[before_at].0 == other);
        if after_at < before_at {
            assert(headers[after_at].0 == other);
        }
    } else {
        if after_at < after.len() {
            if after_at < headers.len() {
                assert(headers[after_at].0 == other);
            }
        }
    }
}

/// A mapping from header names to values, kept in the order in which the
/// names were first stored.
#[derive(Debug, PartialEq, Eq)]
pub struct HeaderMap {
    entries: Vec<(String, String)>,
}

impl View for HeaderMap {
    type V = HeaderSeq;

    closed spec fn view(&self) -> HeaderSeq {
        pairs_view(self.entries@)
    }
}

impl HeaderMap {
    #[verifier::type_invariant]
    spec fn names_are_distinct(&self) -> bool {
        distinct_names(pairs_view(self.entries@))
    }

    /// A mapping without headers.
    pub fn new() -> (headers: HeaderMap)
        ensures
            headers@ == HeaderSeq::empty(),
    {
        let headers = HeaderMap { entries: Vec::new() };
        assert(pairs_view(headers.entries@) =~= HeaderSeq::empty());
        headers
    }

    /// The number of headers.
    pub fn len(&self) -> (len: usize)
        ensures
            len == self@.len(),
    {
        self.entries.len()
    }

    /// Whether there is no header.
    pub fn is_empty(&self) -> (empty: bool)
        ensures
            empty == (self@.len() == 0),
    {
        self.entries.len() == 0
    }

    fn find(&self, name: &str) -> (at: usize)
        ensures
            at == name_index(self@, name@, 0),
            at <= self.entries.len(),
    {
        let mut at: usize = 0;
        while at < self.entries.len()
            invariant
                at <= self.entries.len(),
                name_index(self@, name@, 0) == name_index(self@, name@, at as int),
            decreases self.entries.len() - at,
        {
            if same_text(self.entries[at].0.as_str(), name) {
                return at;
            }
            at = at + 1;
        }
        at
    }

    /// The value stored under `name`.
    pub fn get(&self, name: &str) -> (value: Option<&String>)
        ensures
            match value {
                Some(text) => header_value(self@, name@) == Some(text@),
                None => header_value(self@, name@) is None,
            },
    {
        let at = self.find(name);
        if at < self.entries.len() {
            Some(&self.entries[at].1)
        } else {
            None
        }
    }

    /// Stores `value` under `name` and returns the value that was stored
    /// under it before.
    pub fn insert(&mut self, name: String, value: String) -> (previous: Option<String>)
        ensures
            final(self)@ == with_header(old(self)@, name@, value@),
            match previous {
                Some(text) => header_value(old(self)@, name@) == Some(text@),
                None => header_value(old(self)@, name@) is None,
            },
    {
        proof {
            use_type_invariant(&*self);
            lemma_with_header(self@, name@, value@);
        }
        let at = self.find(name.as_str());
        let ghost before = self@;
        let mut entries: Vec<(String, String)> = Vec::new();
        assert(pairs_view(entries@) =~= HeaderSeq::empty());
        core::mem::swap(&mut self.entries, &mut entries);
        let previous = if at < entries.len() {
            let previous = entries[at].1.clone();
            entries.set(at, (name, value));
            Some(previous)
        } else {
            entries.push((name, value));
            None
        };
        assert(pairs_view(entries@) =~= with_header(before, name@, value@));
        core::mem::swap(&mut self.entries, &mut entries);
        previous
    }

    /// The headers as pairs of name and value, in stored order.
    pub fn to_pairs(&self) -> (pairs: Vec<(String, String)>)
        ensures
            pairs_view(pairs@) == self@,
            distinct_names(self@),
    {
        proof {
            use_type_invariant(self);
        }
        let mut pairs: Vec<(String, String)> = Vec::new();
        let mut at: usize = 0;
        while at < self.entries.len()
            invariant
                at <= self.entries.len(),
                pairs_view(pairs@) == pairs_view(self.entries@).take(at as int),
            decreases self.entries.len() - at,
        {
            let ghost done = pairs_view(pairs@);
            let name = self.entries[at].0.clone();
            let value = self.entries[at].1.clone();
            pairs.push((name, value));
            assert(pairs_view(pairs@) =~= done.push((name@, value@)));
            assert(pairs_view(self.entries@).take(at + 1) =~= done.push((name@, value@)));
            at = at + 1;
        }
        assert(pairs_view(self.entries@).take(at as int) =~= pairs_view(self.entries@));
        pairs
    }
}

impl Default for HeaderMap {
    fn default() -> (headers: HeaderMap)
        ensures
            headers@ == HeaderSeq::empty(),
    {
        HeaderMap::new()
    }
}

} // verus!
