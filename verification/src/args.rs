//! Argument handling: raw multi-valued arguments as delivered by the
//! command-line parser, the extraction of the authentication token, and the
//! reconstruction of key/value maps from flattened pair lists.

use vstd::prelude::*;

use crate::Error;

verus! {

/// The name under which the authentication token is conventionally passed.
pub open spec fn auth_key() -> Seq<char> {
    "authorization_key"@
}

/// The name of the multi-valued argument holding a flattened pair list.
pub open spec fn halve_key() -> Seq<char> {
    "halve"@
}

/// The mathematical reading of a list of (name, value) entries: a map in
/// which a later entry for the same name overwrites an earlier one.
pub open spec fn as_map(s: Seq<(String, String)>) -> Map<Seq<char>, Seq<char>>
    decreases s.len(),
{
    if s.len() == 0 {
        Map::empty()
    } else {
        as_map(s.drop_last()).insert(s.last().0@, s.last().1@)
    }
}

/// The mathematical reading of a list of (name, values) entries: a map from
/// argument name to its list of captured values, later entries overwriting
/// earlier ones.
pub open spec fn as_raw_map(s: Seq<(String, Vec<String>)>) -> Map<Seq<char>, Seq<Seq<char>>>
    decreases s.len(),
{
    if s.len() == 0 {
        Map::empty()
    } else {
        as_raw_map(s.drop_last()).insert(s.last().0@, s.last().1.deep_view())
    }
}

/// For every name with at least one captured value, its first value; names
/// with no captured value (bare flags) are absent.
pub open spec fn first_values(m: Map<Seq<char>, Seq<Seq<char>>>) -> Map<Seq<char>, Seq<char>> {
    Map::new(|k: Seq<char>| m.dom().contains(k) && m[k].len() > 0, |k: Seq<char>| m[k][0])
}

/// The map built from a flat token list read as alternating keys and values:
/// consecutive non-overlapping pairs from the start, later duplicate keys
/// overwriting earlier ones, and a trailing unpaired token dropped.
pub open spec fn pairs_of(s: Seq<Seq<char>>) -> Map<Seq<char>, Seq<char>>
    decreases s.len(),
{
    if s.len() < 2 {
        Map::empty()
    } else if s.len() % 2 == 1 {
        pairs_of(s.drop_last())
    } else {
        pairs_of(s.take(s.len() - 2)).insert(s[s.len() - 2], s[s.len() - 1])
    }
}

/// The flat token list of the pair-list argument, empty when that argument
/// is absent.
pub open spec fn halve_values(m: Map<Seq<char>, Seq<Seq<char>>>) -> Seq<Seq<char>> {
    if m.dom().contains(halve_key()) {
        m[halve_key()]
    } else {
        Seq::empty()
    }
}

proof fn lemma_as_map_push(s: Seq<(String, String)>, p: (String, String))
    ensures
        as_map(s.push(p)) == as_map(s).insert(p.0@, p.1@),
{
    assert(s.push(p).drop_last() =~= s);
    assert(s.push(p).last() == p);
}

proof fn lemma_as_raw_map_push(s: Seq<(String, Vec<String>)>, p: (String, Vec<String>))
    ensures
        as_raw_map(s.push(p)) == as_raw_map(s).insert(p.0@, p.1.deep_view()),
{
    assert(s.push(p).drop_last() =~= s);
    assert(s.push(p).last() == p);
}

/// An even-length flat sequence `[k1, v1, ..., kn, vn]` unflattens to the
/// map with exactly the entries `{k1: v1, ..., kn: vn}`: its domain is the
/// set of keys at even positions, each key not repeated later maps to the
/// value beside it (so a later duplicate overwrites an earlier one), and
/// the domain is finite.
pub proof fn lemma_pairs_of_even(s: Seq<Seq<char>>)
    requires
        s.len() % 2 == 0,
    ensures
        pairs_of(s).dom().finite(),
        forall|k: Seq<char>|
            #[trigger] pairs_of(s).dom().contains(k) <==> (exists|i: int|
                0 <= i < s.len() / 2 && #[trigger] s[2 * i] == k),
        forall|i: int|
            0 <= i < s.len() / 2 && (forall|j: int|
                i < j < s.len() / 2 ==> #[trigger] s[2 * j] != s[2 * i]) ==> #[trigger] pairs_of(
                s,
            )[s[2 * i]] == s[2 * i + 1],
    decreases s.len(),
{
    if s.len() >= 2 {
        let t = s.take(s.len() - 2);
        lemma_pairs_of_even(t);
        let n = s.len() / 2;
        assert(t.len() == s.len() - 2);
        assert(t.len() / 2 == n - 1);
        assert(forall|i: int|
            0 <= i < n - 1 ==> #[trigger] t[2 * i] == s[2 * i] && #[trigger] t[2 * i + 1] == s[2 * i
                + 1]);
        assert(pairs_of(s) == pairs_of(t).insert(s[2 * (n - 1)], s[2 * (n - 1) + 1]));
        assert forall|k: Seq<char>| #[trigger] pairs_of(s).dom().contains(k) implies (exists|i: int|
            0 <= i < n && #[trigger] s[2 * i] == k) by {
            if k == s[2 * (n - 1)] {
                assert(s[2 * (n - 1)] == k);
            } else {
                assert(pairs_of(t).dom().contains(k));
            }
        }
        assert forall|k: Seq<char>| (exists|i: int| 0 <= i < n && #[trigger] s[2 * i] == k) implies #[trigger]
            pairs_of(s).dom().contains(k) by {
            let i = choose|i: int| 0 <= i < n && #[trigger] s[2 * i] == k;
            if i < n - 1 {
                assert(t[2 * i] == k);
                assert(pairs_of(t).dom().contains(k));
            }
        }
        assert forall|i: int|
            0 <= i < n && (forall|j: int| i < j < n ==> #[trigger] s[2 * j] != s[2 * i]) implies
            #[trigger] pairs_of(s)[s[2 * i]] == s[2 * i + 1] by {
            if i < n - 1 {
                assert(s[2 * (n - 1)] != s[2 * i]);
                assert(forall|j: int| i < j < n - 1 ==> #[trigger] t[2 * j] != t[2 * i]);
                assert(pairs_of(t)[t[2 * i]] == t[2 * i + 1]);
            }
        }
    }
}

/// When the keys at even positions of an even-length flat sequence are
/// pairwise distinct, the unflattened map has exactly half the sequence's
/// length in entries.
pub proof fn lemma_pairs_of_even_count(s: Seq<Seq<char>>)
    requires
        s.len() % 2 == 0,
        forall|i: int, j: int| 0 <= i < j < s.len() / 2 ==> #[trigger] s[2 * i] != #[trigger] s[2
            * j],
    ensures
        pairs_of(s).len() == s.len() / 2,
    decreases s.len(),
{
    lemma_pairs_of_even(s);
    if s.len() >= 2 {
        let t = s.take(s.len() - 2);
        let n = s.len() / 2;
        lemma_pairs_of_even(t);
        lemma_pairs_of_even_count(t);
        assert(forall|i: int| 0 <= i < n - 1 ==> #[trigger] t[2 * i] == s[2 * i]);
        assert(!pairs_of(t).dom().contains(s[2 * (n - 1)])) by {
            if pairs_of(t).dom().contains(s[2 * (n - 1)]) {
                let i = choose|i: int| 0 <= i < n - 1 && #[trigger] t[2 * i] == s[2 * (n - 1)];
                assert(s[2 * i] != s[2 * (n - 1)]);
            }
        }
        assert(pairs_of(s).dom() == pairs_of(t).dom().insert(s[2 * (n - 1)]));
    }
}

/// An odd-length flat sequence of length `2n + 1` unflattens to exactly the
/// map of its even-length prefix of length `2n`: the trailing unpaired
/// token is dropped.
pub proof fn lemma_pairs_of_odd(s: Seq<Seq<char>>)
    requires
        s.len() % 2 == 1,
    ensures
        pairs_of(s) == pairs_of(s.take(s.len() - 1)),
{
    if s.len() < 2 {
        assert(s.take(s.len() - 1).len() == 0);
    } else {
        assert(s.drop_last() =~= s.take(s.len() - 1));
    }
}

/// A clean mapping from argument name to a single string value; the
/// authentication token has already been carried away separately.
#[derive(Debug, Clone, PartialEq, Eq)]
pub struct ArgumentSet {
    pub entries: Vec<(String, String)>,
}

impl View for ArgumentSet {
    type V = Map<Seq<char>, Seq<char>>;

    open spec fn view(&self) -> Map<Seq<char>, Seq<char>> {
        as_map(self.entries@)
    }
}

impl ArgumentSet {
    pub fn new() -> (r: ArgumentSet)
        ensures
            r@ == Map::<Seq<char>, Seq<char>>::empty(),
    {
        ArgumentSet { entries: Vec::new() }
    }

    pub fn insert(&mut self, name: String, value: String)
        ensures
            final(self)@ == old(self)@.insert(name@, value@),
    {
        let ghost s = self.entries@;
        let ghost p = (name, value);
        self.entries.push((name, value));
        proof {
            lemma_as_map_push(s, p);
        }
    }

    /// Removes every entry of the given name; returns the value the map held
    /// for it (the latest entry), if any.
    pub fn remove(&mut self, name: &str) -> (r: Option<String>)
        ensures
            final(self)@ == old(self)@.remove(name@),
            match r {
                Some(v) => old(self)@.dom().contains(name@) && v@ == old(self)@[name@],
                None => !old(self)@.dom().contains(name@),
            },
    {
        let mut kept: Vec<(String, String)> = Vec::new();
        let mut found: Option<String> = None;
        let n = self.entries.len();
        let mut i: usize = 0;
        while i < n
            invariant
                n == self.entries.len(),
                i <= n,
                self.entries@ == old(self).entries@,
                as_map(kept@) == as_map(self.entries@.take(i as int)).remove(name@),
                match found {
                    Some(v) => as_map(self.entries@.take(i as int)).dom().contains(name@)
                        && v@ == as_map(self.entries@.take(i as int))[name@],
                    None => !as_map(self.entries@.take(i as int)).dom().contains(name@),
                },
            decreases n - i,
        {
            let ghost t = self.entries@.take(i as int);
            let entry_name = self.entries[i].0.clone();
            let entry_value = self.entries[i].1.clone();
            proof {
                assert(self.entries@.take(i + 1) =~= t.push(self.entries@[i as int]));
                lemma_as_map_push(t, self.entries@[i as int]);
            }
            if string_eq(&entry_name, name) {
                found = Some(entry_value);
                proof {
                    assert(as_map(t).insert(name@, entry_value@).remove(name@) =~= as_map(
                        t,
                    ).remove(name@));
                }
            } else {
                let ghost k = kept@;
                let ghost q = (entry_name, entry_value);
                kept.push((entry_name, entry_value));
                proof {
                    lemma_as_map_push(k, q);
                    assert(as_map(t).insert(q.0@, q.1@).remove(name@) =~= as_map(t).remove(
                        name@,
                    ).insert(q.0@, q.1@));
                }
            }
            i = i + 1;
        }
        proof {
            assert(self.entries@.take(n as int) =~= self.entries@);
        }
        self.entries = kept;
        found
    }

    /// Looks a name up, returning a copy of its value.
    pub fn get(&self, name: &str) -> (r: Option<String>)
        ensures
            match r {
                Some(v) => self@.dom().contains(name@) && v@ == self@[name@],
                None => !self@.dom().contains(name@),
            },
    {
        let mut found: Option<String> = None;
        let n = self.entries.len();
        let mut i: usize = 0;
        while i < n
            invariant
                n == self.entries.len(),
                i <= n,
                match found {
                    Some(v) => as_map(self.entries@.take(i as int)).dom().contains(name@)
                        && v@ == as_map(self.entries@.take(i as int))[name@],
                    None => !as_map(self.entries@.take(i as int)).dom().contains(name@),
                },
            decreases n - i,
        {
            let ghost t = self.entries@.take(i as int);
            proof {
                assert(self.entries@.take(i + 1) =~= t.push(self.entries@[i as int]));
                lemma_as_map_push(t, self.entries@[i as int]);
            }
            if string_eq(&self.entries[i].0, name) {
                found = Some(self.entries[i].1.clone());
            }
            i = i + 1;
        }
        proof {
            assert(self.entries@.take(n as int) =~= self.entries@);
        }
        found
    }
}

/// Compares two strings by their character contents.
pub fn string_eq(a: &str, b: &str) -> (r: bool)
    ensures
        r == (a@ == b@),
{
    let x: String = a.to_owned();
    let y: String = b.to_owned();
    x == y
}

/// The raw argument set of one invocation, as the command-line parser
/// delivers it: each name carries the list of values captured for it, and a
/// bare flag is present with no values.
#[derive(Debug, Clone, PartialEq, Eq)]
pub struct RawArguments {
    pub entries: Vec<(String, Vec<String>)>,
}

impl View for RawArguments {
    type V = Map<Seq<char>, Seq<Seq<char>>>;

    open spec fn view(&self) -> Map<Seq<char>, Seq<Seq<char>>> {
        as_raw_map(self.entries@)
    }
}

impl RawArguments {
    pub fn new() -> (r: RawArguments)
        ensures
            r@ == Map::<Seq<char>, Seq<Seq<char>>>::empty(),
    {
        RawArguments { entries: Vec::new() }
    }

    pub fn insert(&mut self, name: String, values: Vec<String>)
        ensures
            final(self)@ == old(self)@.insert(name@, values.deep_view()),
    {
        let ghost s = self.entries@;
        let ghost p = (name, values);
        self.entries.push((name, values));
        proof {
            lemma_as_raw_map_push(s, p);
        }
    }

    /// Whether an argument of this name was given at all, values or not.
    pub fn is_present(&self, name: &str) -> (r: bool)
        ensures
            r == self@.dom().contains(name@),
    {
        let mut found: bool = false;
        let n = self.entries.len();
        let mut i: usize = 0;
        while i < n
            invariant
                n == self.entries.len(),
                i <= n,
                found == as_raw_map(self.entries@.take(i as int)).dom().contains(name@),
            decreases n - i,
        {
            let ghost t = self.entries@.take(i as int);
            proof {
                assert(self.entries@.take(i + 1) =~= t.push(self.entries@[i as int]));
                lemma_as_raw_map_push(t, self.entries@[i as int]);
            }
            if string_eq(&self.entries[i].0, name) {
                found = true;
            }
            i = i + 1;
        }
        proof {
            assert(self.entries@.take(n as int) =~= self.entries@);
        }
        found
    }

    /// The index of the entry the map reading retains for this name.
    fn find(&self, name: &str) -> (r: Option<usize>)
        ensures
            match r {
                Some(j) => j < self.entries@.len() && self@.dom().contains(name@)
                    && self.entries@[j as int].1.deep_view() == self@[name@],
                None => !self@.dom().contains(name@),
            },
    {
        let mut found: Option<usize> = None;
        let n = self.entries.len();
        let mut i: usize = 0;
        while i < n
            invariant
                n == self.entries.len(),
                i <= n,
                match found {
                    Some(j) => j < i && as_raw_map(self.entries@.take(i as int)).dom().contains(
                        name@,
                    ) && self.entries@[j as int].1.deep_view() == as_raw_map(
                        self.entries@.take(i as int),
                    )[name@],
                    None => !as_raw_map(self.entries@.take(i as int)).dom().contains(name@),
                },
            decreases n - i,
        {
            let ghost t = self.entries@.take(i as int);
            proof {
                assert(self.entries@.take(i + 1) =~= t.push(self.entries@[i as int]));
                lemma_as_raw_map_push(t, self.entries@[i as int]);
            }
            if string_eq(&self.entries[i].0, name) {
                found = Some(i);
            }
            i = i + 1;
        }
        proof {
            assert(self.entries@.take(n as int) =~= self.entries@);
        }
        found
    }

    /// The first value captured for this name, if it captured any.
    pub fn first_value(&self, name: &str) -> (r: Option<String>)
        ensures
            match r {
                Some(v) => first_values(self@).dom().contains(name@) && v@ == first_values(
                    self@,
                )[name@],
                None => !first_values(self@).dom().contains(name@),
            },
    {
        match self.find(name) {
            None => None,
            Some(j) => {
                let values = &self.entries[j].1;
                if values.len() > 0 {
                    Some(values[0].clone())
                } else {
                    None
                }
            },
        }
    }
}

/// Takes the first value of every argument that captured one, and carries
/// the authentication token out of the map.
///
/// Fails with `MissingAuthToken` exactly when no authentication token was
/// captured.
pub fn extract_args(raw: &RawArguments) -> (r: Result<(String, ArgumentSet), Error>)
    ensures
        ({
            let fv = first_values(raw@);
            match r {
                Ok((auth, set)) => fv.dom().contains(auth_key()) && auth@ == fv[auth_key()]
                    && set@ == fv.remove(auth_key()) && !set@.dom().contains(auth_key()),
                Err(e) => e matches Error::MissingAuthToken && !fv.dom().contains(auth_key()),
            }
        }),
{
    let mut set = ArgumentSet::new();
    let n = raw.entries.len();
    let mut i: usize = 0;
    while i < n
        invariant
            n == raw.entries.len(),
            i <= n,
            set@ == first_values(as_raw_map(raw.entries@.take(i as int))),
        decreases n - i,
    {
        let ghost t = raw.entries@.take(i as int);
        let ghost m = as_raw_map(t);
        proof {
            assert(raw.entries@.take(i + 1) =~= t.push(raw.entries@[i as int]));
            lemma_as_raw_map_push(t, raw.entries@[i as int]);
        }
        let name = raw.entries[i].0.clone();
        let values = &raw.entries[i].1;
        if values.len() > 0 {
            let ghost vs = values.deep_view();
            set.insert(name, values[0].clone());
            proof {
                assert(first_values(m.insert(raw.entries@[i as int].0@, vs)) =~= first_values(
                    m,
                ).insert(raw.entries@[i as int].0@, vs[0]));
            }
        } else {
            let ghost vs = values.deep_view();
            let _ = set.remove(name.as_str());
            proof {
                assert(vs.len() == 0);
                assert(first_values(m.insert(raw.entries@[i as int].0@, vs)) =~= first_values(
                    m,
                ).remove(raw.entries@[i as int].0@));
            }
        }
        i = i + 1;
    }
    proof {
        assert(raw.entries@.take(n as int) =~= raw.entries@);
    }
    match set.remove("authorization_key") {
        Some(auth) => Ok((auth, set)),
        None => Err(Error::MissingAuthToken),
    }
}

/// A key/value map rebuilt from a flattened list of alternating tokens, for
/// batch operations over several entities at once.
#[derive(Debug, Clone, PartialEq, Eq)]
pub struct PairMap {
    pub entries: Vec<(String, String)>,
}

impl View for PairMap {
    type V = Map<Seq<char>, Seq<char>>;

    open spec fn view(&self) -> Map<Seq<char>, Seq<char>> {
        as_map(self.entries@)
    }
}

impl PairMap {
    pub fn new() -> (r: PairMap)
        ensures
            r@ == Map::<Seq<char>, Seq<char>>::empty(),
    {
        PairMap { entries: Vec::new() }
    }

    pub fn insert(&mut self, key: String, value: String)
        ensures
            final(self)@ == old(self)@.insert(key@, value@),
    {
        let ghost s = self.entries@;
        let ghost p = (key, value);
        self.entries.push((key, value));
        proof {
            lemma_as_map_push(s, p);
        }
    }

    /// Hands the same map over as an argument set, for use as a request
    /// body.
    pub fn into_argument_set(self) -> (r: ArgumentSet)
        ensures
            r@ == self@,
    {
        ArgumentSet { entries: self.entries }
    }
}

/// Reads the authentication token as `extract_args` does, and rebuilds a
/// key/value map from the flat pair-list argument: consecutive
/// non-overlapping pairs from the start, a trailing unpaired token dropped.
/// An absent pair-list argument yields an empty map.
///
/// Fails with `MissingAuthToken` exactly when no authentication token was
/// captured.
pub fn unflatten_pairs(raw: &RawArguments) -> (r: Result<(String, PairMap), Error>)
    ensures
        ({
            let fv = first_values(raw@);
            match r {
                Ok((auth, pairs)) => fv.dom().contains(auth_key()) && auth@ == fv[auth_key()]
                    && pairs@ == pairs_of(halve_values(raw@)),
                Err(e) => e matches Error::MissingAuthToken && !fv.dom().contains(auth_key()),
            }
        }),
{
    let auth = match raw.first_value("authorization_key") {
        Some(a) => a,
        None => {
            return Err(Error::MissingAuthToken);
        },
    };
    let mut pairs = PairMap::new();
    match raw.find("halve") {
        None => {
            proof {
                assert(halve_values(raw@) =~= Seq::<Seq<char>>::empty());
            }
            Ok((auth, pairs))
        },
        Some(j) => {
            let tokens = &raw.entries[j].1;
            let ghost hv = tokens.deep_view();
            proof {
                assert(hv == halve_values(raw@));
            }
            let n = tokens.len();
            let mut i: usize = 0;
            while i + 1 < n
                invariant
                    n == tokens.len(),
                    n == hv.len(),
                    hv == tokens.deep_view(),
                    i <= n,
                    i % 2 == 0,
                    pairs@ == pairs_of(hv.take(i as int)),
                decreases n - i,
            {
                let key = tokens[i].clone();
                let value = tokens[i + 1].clone();
                pairs.insert(key, value);
                proof {
                    let t = hv.take(i + 2);
                    assert(t.len() == i + 2);
                    assert(t.len() % 2 == 0);
                    assert(t.take(t.len() - 2) =~= hv.take(i as int));
                    assert(t[t.len() - 2] == hv[i as int]);
                    assert(t[t.len() - 1] == hv[i + 1]);
                    assert(hv[i as int] == tokens@[i as int]@);
                    assert(hv[i + 1] == tokens@[i + 1]@);
                }
                i = i + 2;
            }
            proof {
                if n % 2 == 0 {
                    assert(i == n);
                    assert(hv.take(n as int) =~= hv);
                } else {
                    assert(i == n - 1);
                    assert(hv.len() % 2 == 1);
                    if n >= 2 {
                        assert(hv.drop_last() =~= hv.take(n - 1));
                    } else {
                        assert(hv.take(0) =~= Seq::<Seq<char>>::empty());
                    }
                }
            }
            Ok((auth, pairs))
        },
    }
}

} // verus!
