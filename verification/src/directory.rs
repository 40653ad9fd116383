//! The airport directory: an immutable mapping from upper-case IATA codes to
//! IANA timezone names, with case-insensitive lookup.

use vstd::prelude::*;
use crate::casefold::code_matches;
use crate::casefold::lemma_upper_seq_idempotent;
use crate::casefold::upper_seq;
use crate::casefold::upper_string;
use chrono_tz::Tz;

verus! {

#[verifier::external_type_specification]
#[verifier::external_body]
pub struct ExTz(Tz);

/// What `chrono_tz`'s `FromStr` implementation for `Tz` returns on a given
/// name: `Some` with the zone handle when the name is a recognized IANA
/// identifier, `None` otherwise.  The implementation is a lookup in a fixed
/// table, so the result depends on the name alone.
pub uninterp spec fn tz_parse(name: Seq<char>) -> Option<Tz>;

/// Relies on `chrono_tz`'s `impl FromStr for Tz`: resolving an IANA timezone
/// name against the bundled zone table, a function of the name alone.
#[verifier::external_body]
fn parse_tz(name: &str) -> (r: Option<Tz>)
    ensures
        r == tz_parse(name@),
{
    match name.parse::<Tz>() {
        Ok(t) => Some(t),
        Err(_) => None,
    }
}

/// The value bound to `key` by the first entry of `s` whose code equals
/// `key`, or `None` when no entry matches.
pub open spec fn first_match(s: Seq<(Seq<char>, Seq<char>)>, key: Seq<char>) -> Option<Seq<char>>
    decreases s.len(),
{
    if s.len() == 0 {
        None
    } else if s[0].0 == key {
        Some(s[0].1)
    } else {
        first_match(s.skip(1), key)
    }
}

/// Scanning past a prefix that does not match `key` leaves the result of
/// `first_match` unchanged.
proof fn lemma_first_match_after(s: Seq<(Seq<char>, Seq<char>)>, key: Seq<char>, i: int)
    requires
        0 <= i <= s.len(),
        forall|j: int| 0 <= j < i ==> (#[trigger] s[j]).0 != key,
    ensures
        first_match(s, key) == first_match(s.skip(i), key),
    decreases i,
{
    if i == 0 {
        assert(s.skip(0) =~= s);
    } else {
        assert(s[0].0 != key);
        assert forall|j: int| 0 <= j < i - 1 implies (#[trigger] s.skip(1)[j]).0 != key by {
            assert(s.skip(1)[j] == s[j + 1]);
        }
        lemma_first_match_after(s.skip(1), key, i - 1);
        assert(s.skip(1).skip(i - 1) =~= s.skip(i));
    }
}

/// `first_match` finds a value exactly when some entry carries the key, and
/// any value it finds is the value of such an entry.
proof fn lemma_first_match_entry(s: Seq<(Seq<char>, Seq<char>)>, key: Seq<char>)
    ensures
        (first_match(s, key) is Some) <==> (exists|i: int|
            0 <= i < s.len() && (#[trigger] s[i]).0 == key),
        first_match(s, key) matches Some(v) ==> exists|i: int|
            0 <= i < s.len() && (#[trigger] s[i]).0 == key && s[i].1 == v,
    decreases s.len(),
{
    if s.len() == 0 {
    } else if s[0].0 == key {
    } else {
        lemma_first_match_entry(s.skip(1), key);
        if exists|i: int| 0 <= i < s.len() && (#[trigger] s[i]).0 == key {
            let i = choose|i: int| 0 <= i < s.len() && (#[trigger] s[i]).0 == key;
            assert(s.skip(1)[i - 1] == s[i]);
        }
        if first_match(s, key) is Some {
            let v = first_match(s, key)->0;
            let i = choose|i: int|
                0 <= i < s.skip(1).len() && (#[trigger] s.skip(1)[i]).0 == key && s.skip(1)[i].1
                    == v;
            assert(s[i + 1] == s.skip(1)[i]);
        }
    }
}

/// The views of a sequence of owned (code, timezone name) pairs.
pub open spec fn pair_views(s: Seq<(String, String)>) -> Seq<(Seq<char>, Seq<char>)> {
    s.map_values(|p: (String, String)| (p.0@, p.1@))
}

/// The directory contents that loading the pairs `s` on top of `init`
/// produces: each pair in turn has its code folded to upper case and is
/// appended exactly when its name resolves to a zone and its code is not
/// yet bound.
pub open spec fn load_result(
    init: Seq<(Seq<char>, Seq<char>)>,
    s: Seq<(Seq<char>, Seq<char>)>,
) -> Seq<(Seq<char>, Seq<char>)>
    decreases s.len(),
{
    if s.len() == 0 {
        init
    } else {
        let prev = load_result(init, s.drop_last());
        let e = s.last();
        if tz_parse(e.1) is Some && first_match(prev, upper_seq(e.0)) is None {
            prev.push((upper_seq(e.0), e.1))
        } else {
            prev
        }
    }
}

/// The exact contents of a freshly built directory: the bundled dataset,
/// loaded onto an empty directory.
pub open spec fn spec_new_entries() -> Seq<(Seq<char>, Seq<char>)> {
    load_result(Seq::empty(), crate::dataset::builtin_entries())
}

/// A directory of airports, built once from the bundled dataset and never
/// mutated afterwards.
#[derive(Clone, Debug)]
pub struct Airports {
    db: Vec<(String, String)>,
}

impl View for Airports {
    type V = Map<Seq<char>, Seq<char>>;

    open spec fn view(&self) -> Map<Seq<char>, Seq<char>> {
        Map::new(
            |k: Seq<char>| first_match(self.entries(), k) is Some,
            |k: Seq<char>| first_match(self.entries(), k)->0,
        )
    }
}

impl Airports {
    /// The stored entries, each as a pair of code and timezone name.
    pub closed spec fn entries(self) -> Seq<(Seq<char>, Seq<char>)> {
        pair_views(self.db@)
    }

    /// Well-formedness: codes are upper case at rest, no code repeats, and
    /// every stored timezone name resolves to a zone.
    pub open spec fn wf(self) -> bool {
        let es = self.entries();
        &&& (forall|i: int| 0 <= i < es.len() ==> (#[trigger] es[i]).0 == upper_seq(es[i].0))
        &&& (forall|i: int, j: int|
            0 <= i < j < es.len() ==> (#[trigger] es[i]).0 != (#[trigger] es[j]).0)
        &&& (forall|i: int| 0 <= i < es.len() ==> tz_parse((#[trigger] es[i]).1) is Some)
    }

    /// The timezone name a lookup of `code` yields: the entry stored under
    /// the upper-cased form of `code`, if any.
    pub open spec fn spec_get_tz_name(self, code: Seq<char>) -> Option<Seq<char>> {
        first_match(self.entries(), upper_seq(code))
    }

    /// The timezone handle a lookup of `code` yields: the stored name
    /// resolved against the zone table.
    pub open spec fn spec_get_tz(self, code: Seq<char>) -> Option<Tz> {
        match self.spec_get_tz_name(code) {
            Some(name) => tz_parse(name),
            None => None,
        }
    }

    /// Builds the directory from the bundled dataset.  The contents are
    /// pinned exactly: the dataset pairs, loaded in order onto an empty
    /// directory, so repeated construction yields equal directories.
    pub fn new() -> (r: Airports)
        ensures
            r.wf(),
            r.entries() == spec_new_entries(),
    {
        let pairs = crate::dataset::builtin_pairs();
        let mut d = Airports { db: Vec::new() };
        proof {
            assert(d.entries() =~= Seq::<(Seq<char>, Seq<char>)>::empty());
        }
        d.load(&pairs);
        d
    }

    /// Loads a sequence of (code, timezone name) pairs, one `add` each.
    pub(crate) fn load(&mut self, pairs: &Vec<(String, String)>)
        requires
            old(self).wf(),
        ensures
            final(self).wf(),
            final(self).entries() == load_result(old(self).entries(), pair_views(pairs@)),
    {
        let ghost init = self.entries();
        let ghost s = pair_views(pairs@);
        proof {
            assert(s.take(0) =~= Seq::<(Seq<char>, Seq<char>)>::empty());
        }
        let n = pairs.len();
        let mut i: usize = 0;
        while i < n
            invariant
                n == pairs@.len(),
                i <= n,
                s == pair_views(pairs@),
                self.wf(),
                self.entries() == load_result(init, s.take(i as int)),
            decreases n - i,
        {
            let p = &pairs[i];
            self.add(p.0.as_str(), p.1.as_str());
            proof {
                assert(s.take(i as int + 1).drop_last() =~= s.take(i as int));
                assert(s.take(i as int + 1).last() == s[i as int]);
                assert(s[i as int] == (p.0@, p.1@));
            }
            i = i + 1;
        }
        proof {
            assert(s.take(n as int) =~= s);
        }
    }

    /// Inserts one entry, keeping the directory well formed: the code is
    /// folded to upper case, and the entry is dropped if the code is already
    /// bound or the timezone name does not resolve.
    pub(crate) fn add(&mut self, code: &str, name: &str)
        requires
            old(self).wf(),
        ensures
            final(self).wf(),
            (tz_parse(name@) is Some && first_match(old(self).entries(), upper_seq(code@))
                is None) ==> final(self).entries() == old(self).entries().push(
                (upper_seq(code@), name@),
            ),
            !(tz_parse(name@) is Some && first_match(old(self).entries(), upper_seq(code@))
                is None) ==> final(self).entries() == old(self).entries(),
    {
        let parsed = parse_tz(name);
        if parsed.is_none() {
            return ;
        }
        let ghost k = upper_seq(code@);
        let n = self.db.len();
        let mut i: usize = 0;
        while i < n
            invariant
                n == self.db.len(),
                i <= n,
                *self == *old(self),
                old(self).wf(),
                k == upper_seq(code@),
                forall|j: int| 0 <= j < i ==> (#[trigger] self.entries()[j]).0 != k,
            decreases n - i,
        {
            let p = &self.db[i];
            if code_matches(p.0.as_str(), code) {
                proof {
                    assert((#[trigger] self.entries()[i as int]).0 == k);
                    lemma_first_match_entry(self.entries(), k);
                    assert(first_match(old(self).entries(), k) is Some);
                }
                return ;
            }
            i = i + 1;
        }
        proof {
            lemma_first_match_after(self.entries(), k, n as int);
        }
        let up = upper_string(code);
        let stored = name.to_owned();
        self.db.push((up, stored));
        proof {
            let old_es = old(self).entries();
            let es = self.entries();
            assert(es =~= old_es.push((k, name@)));
            lemma_upper_seq_idempotent(code@);
            assert forall|a: int, b: int| 0 <= a < b < es.len() implies (#[trigger] es[a]).0 != (
            #[trigger] es[b]).0 by {
                if b == es.len() - 1 {
                    assert(es[a] == old_es[a]);
                }
            }
        }
    }

    /// Looks up the timezone name of an airport code, case-insensitively.
    /// Unknown codes yield `None`; no input is rejected.
    pub fn get_tz_name<'a>(&'a self, code: &str) -> (r: Option<&'a String>)
        ensures
            r matches Some(name) ==> self.spec_get_tz_name(code@) == Some(name@),
            r is None ==> self.spec_get_tz_name(code@) is None,
            (r is Some) == self@.contains_key(upper_seq(code@)),
            r matches Some(name) ==> name@ == self@[upper_seq(code@)],
    {
        let ghost k = upper_seq(code@);
        let n = self.db.len();
        let mut i: usize = 0;
        while i < n
            invariant
                n == self.db.len(),
                i <= n,
                k == upper_seq(code@),
                forall|j: int| 0 <= j < i ==> (#[trigger] self.entries()[j]).0 != k,
            decreases n - i,
        {
            let p = &self.db[i];
            if code_matches(p.0.as_str(), code) {
                proof {
                    lemma_first_match_after(self.entries(), k, i as int);
                }
                return Some(&p.1);
            }
            i = i + 1;
        }
        proof {
            lemma_first_match_after(self.entries(), k, n as int);
        }
        None
    }

    /// Looks up an airport code and resolves the stored timezone name into a
    /// `chrono_tz` handle.  The handle is present exactly when the code is
    /// known.  Well-formedness (which every constructor establishes) is
    /// required, so a stored name that fails to resolve — a corrupt dataset —
    /// is ruled out up front instead of being answered with a made-up result.
    pub fn get_tz(&self, code: &str) -> (r: Option<Tz>)
        requires
            self.wf(),
        ensures
            r == self.spec_get_tz(code@),
            (r is Some) == self@.contains_key(upper_seq(code@)),
    {
        match self.get_tz_name(code) {
            Some(t) => {
                let r = parse_tz(t.as_str());
                proof {
                    lemma_first_match_entry(self.entries(), upper_seq(code@));
                }
                r
            },
            None => None,
        }
    }

    /// The stored airport codes, in insertion order.
    pub fn codes(&self) -> (r: Vec<String>)
        ensures
            r@.len() == self.entries().len(),
            forall|i: int| 0 <= i < r@.len() ==> (#[trigger] r@[i])@ == self.entries()[i].0,
    {
        let mut r: Vec<String> = Vec::new();
        let n = self.db.len();
        let mut i: usize = 0;
        while i < n
            invariant
                n == self.db.len(),
                r@.len() == i,
                i <= n,
                forall|j: int| 0 <= j < i ==> (#[trigger] r@[j])@ == self.entries()[j].0,
            decreases n - i,
        {
            let p = &self.db[i];
            r.push(p.0.clone());
            i = i + 1;
        }
        r
    }
}

impl Default for Airports {
    /// The same directory as `Airports::new` builds.
    fn default() -> (r: Self)
        ensures
            r.wf(),
            r.entries() == spec_new_entries(),
    {
        Airports::new()
    }
}

/// Lookups agree on any two queries whose upper-cased forms agree; in
/// particular the case of the query never matters.
pub proof fn lemma_case_insensitive(d: Airports, a: Seq<char>, b: Seq<char>)
    requires
        upper_seq(a) == upper_seq(b),
    ensures
        d.spec_get_tz_name(a) == d.spec_get_tz_name(b),
        d.spec_get_tz(a) == d.spec_get_tz(b),
{
}

/// Looking up the upper-cased form of a query is the same as looking up the
/// query itself.
pub proof fn lemma_upper_lookup(d: Airports, code: Seq<char>)
    ensures
        d.spec_get_tz_name(upper_seq(code)) == d.spec_get_tz_name(code),
        d.spec_get_tz(upper_seq(code)) == d.spec_get_tz(code),
{
    lemma_upper_seq_idempotent(code);
}

/// On a well-formed directory the two lookups are consistent: a code has a
/// timezone handle exactly when it has a timezone name, and the handle is
/// the resolved form of that name.
pub proof fn lemma_tz_consistent_with_name(d: Airports, code: Seq<char>)
    ensures
        d.spec_get_tz(code) == (match d.spec_get_tz_name(code) {
            Some(name) => tz_parse(name),
            None => None::<Tz>,
        }),
        d.wf() ==> ((d.spec_get_tz(code) is Some) <==> (d.spec_get_tz_name(code) is Some)),
{
    if d.wf() {
        lemma_first_match_entry(d.entries(), upper_seq(code));
    }
}

/// Every code held by a well-formed directory resolves to exactly the
/// timezone name stored with it, on every lookup.
pub proof fn lemma_known_code_resolves(d: Airports, i: int)
    requires
        d.wf(),
        0 <= i < d.entries().len(),
    ensures
        d.spec_get_tz_name(d.entries()[i].0) == Some(d.entries()[i].1),
{
    let es = d.entries();
    let k = es[i].0;
    assert(upper_seq(k) == k);
    lemma_first_match_entry(es, k);
    assert(first_match(es, k) is Some);
    let v = first_match(es, k)->0;
    let j = choose|j: int| 0 <= j < es.len() && (#[trigger] es[j]).0 == k && es[j].1 == v;
    assert(j == i);
}

/// Dataset integrity: every timezone name held by a well-formed directory
/// resolves to a zone.
pub proof fn lemma_dataset_integrity(d: Airports, k: Seq<char>)
    requires
        d.wf(),
        d@.contains_key(k),
    ensures
        tz_parse(d@[k]) is Some,
{
    lemma_first_match_entry(d.entries(), k);
}

} // verus!
