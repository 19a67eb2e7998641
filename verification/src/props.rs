//! The flat property store: dotted string keys bound to string values,
//! together with the mathematical model of the line-oriented `key=value`
//! text it is parsed from.

use crate::chars::lemma_find_in_bounds;
use crate::chars::spec_find_in;
use crate::chars::str_eq;
use vstd::prelude::*;

verus! {

/// One `key=value` binding, as it appears in the property text, in file order.
pub type EntryView = (Seq<char>, Seq<char>);

/// The value bound to `key` by `entries`, where the latest binding wins.
pub open spec fn spec_lookup(entries: Seq<EntryView>, key: Seq<char>) -> Option<Seq<char>>
    decreases entries.len(),
{
    if entries.len() == 0 {
        None
    } else if entries.last().0 == key {
        Some(entries.last().1)
    } else {
        spec_lookup(entries.drop_last(), key)
    }
}

/// Last write wins: a newly appended binding decides its own key's lookup
/// and leaves every other key's lookup unchanged.
pub proof fn lemma_lookup_last_wins(
    entries: Seq<EntryView>,
    key: Seq<char>,
    value: Seq<char>,
    other: Seq<char>,
)
    ensures
        spec_lookup(entries.push((key, value)), key) == Some(value),
        other != key ==> spec_lookup(entries.push((key, value)), other) == spec_lookup(
            entries,
            other,
        ),
{
    assert(entries.push((key, value)).drop_last() =~= entries);
}

/// Mapping from dotted property key (e.g. `"PA5.Signal"`) to string value.
///
/// Bindings are kept in the order they were inserted; a later binding for a
/// key shadows an earlier one, so lookups are last-write-wins, matching the
/// overwrite semantics of the property text format.
#[derive(Clone, Debug, PartialEq)]
pub struct PropertyStore {
    entries: Vec<(String, String)>,
}

impl View for PropertyStore {
    type V = Seq<EntryView>;

    closed spec fn view(&self) -> Seq<EntryView> {
        self.entries@.map_values(|p: (String, String)| (p.0@, p.1@))
    }
}

impl PropertyStore {
    /// An empty store.
    pub fn new() -> (s: Self)
        ensures
            s@ == Seq::<EntryView>::empty(),
    {
        let s = PropertyStore { entries: Vec::new() };
        proof {
            assert(s@ =~= Seq::<EntryView>::empty());
        }
        s
    }

    /// Binds `key` to `value`, shadowing any earlier binding of `key`.
    pub fn insert(&mut self, key: String, value: String)
        ensures
            final(self)@ == old(self)@.push((key@, value@)),
    {
        let ghost pre = self@;
        self.entries.push((key, value));
        proof {
            assert(self@ =~= pre.push((key@, value@)));
        }
    }

    /// Looks `key` up, returning the value of its latest binding.
    pub fn get(&self, key: &str) -> (r: Option<&String>)
        ensures
            match r {
                Some(v) => spec_lookup(self@, key@) == Some(v@),
                None => spec_lookup(self@, key@) is None,
            },
    {
        let mut i = self.entries.len();
        proof {
            assert(self@.subrange(0, i as int) =~= self@);
        }
        while i > 0
            invariant
                i <= self.entries.len(),
                spec_lookup(self@, key@) == spec_lookup(self@.subrange(0, i as int), key@),
            decreases i,
        {
            i = i - 1;
            proof {
                assert(self@.subrange(0, i + 1 as int).last() == self@[i as int]);
                assert(self@.subrange(0, i + 1 as int).drop_last() =~= self@.subrange(
                    0,
                    i as int,
                ));
            }
            if str_eq(self.entries[i].0.as_str(), key) {
                return Some(&self.entries[i].1);
            }
        }
        proof {
            assert(self@.subrange(0, 0) =~= Seq::<EntryView>::empty());
        }
        None
    }
}

/// Prefixes the sequence of a successful result with already-collected
/// items; an error passes through unchanged.
pub open spec fn prepend_ok<A, E>(acc: Seq<A>, r: Result<Seq<A>, E>) -> Result<Seq<A>, E> {
    match r {
        Ok(rest) => Ok(acc + rest),
        Err(e) => Err(e),
    }
}

/// The entries declared by the property text from character position `i` on,
/// or the first malformed line.
///
/// Lines end at `'\n'`; a line so terminated additionally sheds one trailing
/// `'\r'`, so both bare-newline and CRLF texts are read alike. A line that is
/// empty or starts with `'#'` declares nothing. Every other line must contain
/// `'='`; the key is everything before its first occurrence, the value
/// everything after.
pub open spec fn spec_parse_from(s: Seq<char>, i: int) -> Result<Seq<EntryView>, Seq<char>>
    decreases s.len() - i,
    via spec_parse_from_decreases
{
    if i < 0 || i >= s.len() {
        Ok(Seq::empty())
    } else {
        let j = spec_find_in(s, '\n', i, s.len() as int);
        let end = if j < s.len() && i < j && s[j - 1] == '\r' {
            j - 1
        } else {
            j
        };
        let next = if j < s.len() {
            j + 1
        } else {
            j
        };
        if end == i || s[i] == '#' {
            spec_parse_from(s, next)
        } else {
            let e = spec_find_in(s, '=', i, end);
            if e == end {
                Err(s.subrange(i, end))
            } else {
                prepend_ok(
                    seq![(s.subrange(i, e), s.subrange(e + 1, end))],
                    spec_parse_from(s, next),
                )
            }
        }
    }
}

#[via_fn]
proof fn spec_parse_from_decreases(s: Seq<char>, i: int) {
    if 0 <= i < s.len() {
        lemma_find_in_bounds(s, '\n', i, s.len() as int);
    }
}

/// The whole property text, parsed from its first character.
pub open spec fn spec_parse_props(s: Seq<char>) -> Result<Seq<EntryView>, Seq<char>> {
    spec_parse_from(s, 0)
}

} // verus!
