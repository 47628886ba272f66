//! The header map of a request or response: one `name: value` pair per
//! distinct name. A later insertion under an existing name replaces the
//! stored value; names keep their insertion order and their exact case.

use vstd::prelude::*;

use crate::text::find_str;
use crate::text::first_match;
use crate::text::lemma_first_match;
use crate::text::spec_trim;
use crate::text::str_eq;
use crate::text::trim;
use crate::text::views_of;

verus! {

/// The pairs of a header map, as character sequences.
pub open spec fn pair_views(v: Seq<(String, String)>) -> Seq<(Seq<char>, Seq<char>)> {
    v.map_values(|p: (String, String)| (p.0@, p.1@))
}

/// The value stored under `key`, scanning the pairs front to back.
pub open spec fn spec_get(m: Seq<(Seq<char>, Seq<char>)>, key: Seq<char>) -> Option<Seq<char>>
    decreases m.len(),
{
    if m.len() == 0 {
        None
    } else if m[0].0 == key {
        Some(m[0].1)
    } else {
        spec_get(m.skip(1), key)
    }
}

/// Insertion with last-write-wins: a pair with the same name is replaced
/// in place, otherwise the new pair is appended.
pub open spec fn spec_insert(
    m: Seq<(Seq<char>, Seq<char>)>,
    key: Seq<char>,
    value: Seq<char>,
) -> Seq<(Seq<char>, Seq<char>)>
    decreases m.len(),
{
    if m.len() == 0 {
        seq![(key, value)]
    } else if m[0].0 == key {
        seq![(key, value)] + m.skip(1)
    } else {
        seq![m[0]] + spec_insert(m.skip(1), key, value)
    }
}

/// No two pairs share a name.
pub open spec fn keys_unique(m: Seq<(Seq<char>, Seq<char>)>) -> bool {
    forall|i: int, j: int| 0 <= i < j < m.len() ==> m[i].0 != m[j].0
}

/// The wire text of the pairs: one `name: value` line per pair, each
/// ended by CRLF.
pub open spec fn spec_header_lines(m: Seq<(Seq<char>, Seq<char>)>) -> Seq<char>
    decreases m.len(),
{
    if m.len() == 0 {
        Seq::empty()
    } else {
        m[0].0 + ": "@ + m[0].1 + "\r\n"@ + spec_header_lines(m.skip(1))
    }
}

pub proof fn lemma_get_insert_same(m: Seq<(Seq<char>, Seq<char>)>, key: Seq<char>, value: Seq<char>)
    ensures
        spec_get(spec_insert(m, key, value), key) == Some(value),
    decreases m.len(),
{
    if m.len() == 0 {
        assert(seq![(key, value)][0].0 == key);
    } else if m[0].0 == key {
        assert((seq![(key, value)] + m.skip(1))[0].0 == key);
    } else {
        lemma_get_insert_same(m.skip(1), key, value);
        let r = seq![m[0]] + spec_insert(m.skip(1), key, value);
        assert(r[0] == m[0]);
        assert(r.skip(1) =~= spec_insert(m.skip(1), key, value));
    }
}

pub proof fn lemma_get_insert_other(
    m: Seq<(Seq<char>, Seq<char>)>,
    key: Seq<char>,
    value: Seq<char>,
    other: Seq<char>,
)
    requires
        other != key,
    ensures
        spec_get(spec_insert(m, key, value), other) == spec_get(m, other),
    decreases m.len(),
{
    reveal_with_fuel(spec_get, 3);
    if m.len() == 0 {
        assert(seq![(key, value)][0].0 == key);
        assert(seq![(key, value)].skip(1) =~= Seq::<(Seq<char>, Seq<char>)>::empty());
    } else if m[0].0 == key {
        let r = seq![(key, value)] + m.skip(1);
        assert(r[0].0 == key);
        assert(r.skip(1) =~= m.skip(1));
    } else {
        lemma_get_insert_other(m.skip(1), key, value, other);
        let r = seq![m[0]] + spec_insert(m.skip(1), key, value);
        assert(r[0] == m[0]);
        assert(r.skip(1) =~= spec_insert(m.skip(1), key, value));
    }
}

proof fn lemma_insert_keys(m: Seq<(Seq<char>, Seq<char>)>, key: Seq<char>, value: Seq<char>)
    ensures
        forall|j: int|
            0 <= j < spec_insert(m, key, value).len() ==> spec_insert(m, key, value)[j].0 == key
                || (exists|i: int| 0 <= i < m.len() && m[i].0 == #[trigger] spec_insert(
                m,
                key,
                value,
            )[j].0),
    decreases m.len(),
{
    if m.len() == 0 {
    } else if m[0].0 == key {
        let r = seq![(key, value)] + m.skip(1);
        assert forall|j: int| 0 <= j < r.len() implies r[j].0 == key || (exists|i: int|
            0 <= i < m.len() && m[i].0 == #[trigger] r[j].0) by {
            if j > 0 {
                assert(r[j] == m[j]);
            }
        }
    } else {
        lemma_insert_keys(m.skip(1), key, value);
        let t = spec_insert(m.skip(1), key, value);
        let r = seq![m[0]] + t;
        assert forall|j: int| 0 <= j < r.len() implies r[j].0 == key || (exists|i: int|
            0 <= i < m.len() && m[i].0 == #[trigger] r[j].0) by {
            if j == 0 {
                assert(r[0] == m[0]);
                assert(m[0].0 == r[0].0);
            } else {
                assert(r[j] == t[j - 1]);
                if t[j - 1].0 != key {
                    let i0 = choose|i: int| 0 <= i < m.skip(1).len() && m.skip(1)[i].0 == t[j
                        - 1].0;
                    assert(m[i0 + 1].0 == r[j].0);
                }
            }
        }
    }
}

/// The map invariant: insertion never makes a name repeat.
pub proof fn lemma_insert_preserves_unique(
    m: Seq<(Seq<char>, Seq<char>)>,
    key: Seq<char>,
    value: Seq<char>,
)
    requires
        keys_unique(m),
    ensures
        keys_unique(spec_insert(m, key, value)),
    decreases m.len(),
{
    if m.len() == 0 {
    } else if m[0].0 == key {
        let r = seq![(key, value)] + m.skip(1);
        assert forall|p: int, q: int| 0 <= p < q < r.len() implies r[p].0 != r[q].0 by {
            assert(r[q] == m[q]);
            if p == 0 {
                assert(m[0].0 != m[q].0);
            } else {
                assert(r[p] == m[p]);
            }
        }
    } else {
        assert forall|p: int, q: int|
            0 <= p < q < m.skip(1).len() implies m.skip(1)[p].0 != m.skip(1)[q].0 by {
            assert(m.skip(1)[p] == m[p + 1]);
            assert(m.skip(1)[q] == m[q + 1]);
        }
        lemma_insert_preserves_unique(m.skip(1), key, value);
        lemma_insert_keys(m.skip(1), key, value);
        let t = spec_insert(m.skip(1), key, value);
        let r = seq![m[0]] + t;
        assert forall|p: int, q: int| 0 <= p < q < r.len() implies r[p].0 != r[q].0 by {
            assert(r[q] == t[q - 1]);
            if p == 0 {
                if t[q - 1].0 == key {
                    assert(m[0].0 != key);
                } else {
                    let i0 = choose|i: int| 0 <= i < m.skip(1).len() && m.skip(1)[i].0 == t[q
                        - 1].0;
                    assert(m.skip(1)[i0] == m[i0 + 1]);
                    assert(m[0].0 != m[i0 + 1].0);
                }
            } else {
                assert(r[p] == t[p - 1]);
            }
        }
    }
}

proof fn lemma_insert_at(
    m: Seq<(Seq<char>, Seq<char>)>,
    key: Seq<char>,
    value: Seq<char>,
    i: int,
)
    requires
        0 <= i < m.len(),
        m[i].0 == key,
        forall|k: int| 0 <= k < i ==> m[k].0 != key,
    ensures
        spec_insert(m, key, value) == m.update(i, (key, value)),
    decreases i,
{
    if i == 0 {
        assert(seq![(key, value)] + m.skip(1) =~= m.update(0, (key, value)));
    } else {
        assert(m[0].0 != key);
        assert(m.skip(1)[i - 1].0 == key);
        assert forall|k: int| 0 <= k < i - 1 implies m.skip(1)[k].0 != key by {
            assert(m.skip(1)[k] == m[k + 1]);
        }
        lemma_insert_at(m.skip(1), key, value, i - 1);
        assert(seq![m[0]] + m.skip(1).update(i - 1, (key, value)) =~= m.update(i, (key, value)));
    }
}

proof fn lemma_insert_new(m: Seq<(Seq<char>, Seq<char>)>, key: Seq<char>, value: Seq<char>)
    requires
        forall|k: int| 0 <= k < m.len() ==> m[k].0 != key,
    ensures
        spec_insert(m, key, value) == m.push((key, value)),
    decreases m.len(),
{
    if m.len() == 0 {
        assert(seq![(key, value)] =~= m.push((key, value)));
    } else {
        assert(m[0].0 != key);
        assert forall|k: int| 0 <= k < m.skip(1).len() implies m.skip(1)[k].0 != key by {
            assert(m.skip(1)[k] == m[k + 1]);
        }
        lemma_insert_new(m.skip(1), key, value);
        assert(seq![m[0]] + m.skip(1).push((key, value)) =~= m.push((key, value)));
    }
}

/// A header line split at its first `:`: the name before it and the value
/// after it, both trimmed. A line without a `:` is malformed.
pub open spec fn spec_header_line(line: Seq<char>) -> Option<(Seq<char>, Seq<char>)> {
    match first_match(line, ":"@, 0) {
        Some(i) => Some((spec_trim(line.take(i)), spec_trim(line.skip(i + 1)))),
        None => None,
    }
}

/// Header lines folded into a map, a later line overwriting an earlier one
/// with the same name; any malformed line spoils the whole block.
pub open spec fn spec_add_header_lines(
    m: Seq<(Seq<char>, Seq<char>)>,
    lines: Seq<Seq<char>>,
) -> Option<Seq<(Seq<char>, Seq<char>)>>
    decreases lines.len(),
{
    if lines.len() == 0 {
        Some(m)
    } else {
        match spec_header_line(lines[0]) {
            None => None,
            Some(p) => spec_add_header_lines(spec_insert(m, p.0, p.1), lines.skip(1)),
        }
    }
}

/// Splits one header line at its first `:` and trims name and value.
pub fn parse_header_line(line: &str) -> (r: Option<(String, String)>)
    ensures
        match r {
            Some(p) => spec_header_line(line@) == Some((p.0@, p.1@)),
            None => spec_header_line(line@) is None,
        },
{
    proof {
        reveal_strlit(":");
    }
    let n: usize = line.unicode_len();
    match find_str(line, ":", 0) {
        Some(i) => {
            proof {
                lemma_first_match(line@, ":"@, 0);
            }
            let key = trim(line.substring_char(0, i)).to_owned();
            let value = trim(line.substring_char(i + 1, n)).to_owned();
            proof {
                assert(line@.subrange(0, i as int) =~= line@.take(i as int));
                assert(line@.subrange(i + 1, n as int) =~= line@.skip(i + 1));
            }
            Some((key, value))
        },
        None => None,
    }
}

/// Parsing preserves the map invariant: folding header lines into a map
/// whose names do not repeat leaves the names without repetition.
pub proof fn lemma_add_header_lines_unique(m: Seq<(Seq<char>, Seq<char>)>, lines: Seq<Seq<char>>)
    requires
        keys_unique(m),
    ensures
        spec_add_header_lines(m, lines) matches Some(hm) ==> keys_unique(hm),
    decreases lines.len(),
{
    if lines.len() > 0 {
        match spec_header_line(lines[0]) {
            None => {},
            Some(p) => {
                lemma_insert_preserves_unique(m, p.0, p.1);
                lemma_add_header_lines_unique(spec_insert(m, p.0, p.1), lines.skip(1));
            },
        }
    }
}

/// Adds each of `lines[from..]` to `map` as a header line; stops and
/// reports failure at the first malformed line.
pub fn add_header_lines(map: &mut HeaderMap, lines: &Vec<String>, from: usize) -> (ok: bool)
    requires
        from <= lines@.len(),
    ensures
        match spec_add_header_lines(old(map)@, views_of(lines@).skip(from as int)) {
            Some(m) => ok && final(map)@ == m,
            None => !ok,
        },
{
    let n: usize = lines.len();
    let mut i: usize = from;
    while i < n
        invariant
            from <= i <= n,
            n == lines@.len(),
            spec_add_header_lines(map@, views_of(lines@).skip(i as int))
                == spec_add_header_lines(old(map)@, views_of(lines@).skip(from as int)),
        decreases n - i,
    {
        proof {
            assert(views_of(lines@).skip(i as int)[0] == views_of(lines@)[i as int]);
            assert(views_of(lines@)[i as int] == lines@[i as int]@);
            assert(views_of(lines@).skip(i as int).skip(1) =~= views_of(lines@).skip(i + 1));
        }
        match parse_header_line(lines[i].as_str()) {
            Some(pair) => {
                map.insert(pair.0, pair.1);
            },
            None => {
                return false;
            },
        }
        i += 1;
    }
    proof {
        assert(views_of(lines@).skip(n as int) =~= Seq::<Seq<char>>::empty());
    }
    true
}

/// A case-sensitive mapping from header name to header value.
pub struct HeaderMap {
    entries: Vec<(String, String)>,
}

impl View for HeaderMap {
    type V = Seq<(Seq<char>, Seq<char>)>;

    closed spec fn view(&self) -> Seq<(Seq<char>, Seq<char>)> {
        pair_views(self.entries@)
    }
}

impl HeaderMap {
    pub fn new() -> (r: HeaderMap)
        ensures
            r@ == Seq::<(Seq<char>, Seq<char>)>::empty(),
    {
        let r = HeaderMap { entries: Vec::new() };
        proof {
            assert(r@ =~= Seq::<(Seq<char>, Seq<char>)>::empty());
        }
        r
    }

    pub fn len(&self) -> (n: usize)
        ensures
            n == self@.len(),
    {
        self.entries.len()
    }

    /// The name of the pair at `i`, in insertion order.
    pub fn key_at(&self, i: usize) -> (k: &String)
        requires
            i < self@.len(),
        ensures
            k@ == self@[i as int].0,
    {
        &self.entries[i].0
    }

    /// The value of the pair at `i`, in insertion order.
    pub fn value_at(&self, i: usize) -> (v: &String)
        requires
            i < self@.len(),
        ensures
            v@ == self@[i as int].1,
    {
        &self.entries[i].1
    }

    /// The value stored under `key`, if any.
    pub fn get(&self, key: &str) -> (r: Option<&String>)
        ensures
            match r {
                Some(v) => spec_get(self@, key@) == Some(v@),
                None => spec_get(self@, key@) is None,
            },
    {
        let n: usize = self.entries.len();
        let mut i: usize = 0;
        proof {
            assert(self@.skip(0) =~= self@);
        }
        while i < n
            invariant
                i <= n,
                n == self@.len(),
                spec_get(self@, key@) == spec_get(self@.skip(i as int), key@),
            decreases n - i,
        {
            if str_eq(self.entries[i].0.as_str(), key) {
                proof {
                    assert(self@.skip(i as int)[0] == self@[i as int]);
                }
                return Some(&self.entries[i].1);
            }
            proof {
                assert(self@.skip(i as int)[0] == self@[i as int]);
                assert(self@.skip(i as int).skip(1) =~= self@.skip(i + 1));
            }
            i += 1;
        }
        proof {
            assert(self@.skip(n as int) =~= Seq::<(Seq<char>, Seq<char>)>::empty());
        }
        None
    }

    /// Whether some value is stored under `key`.
    pub fn contains_key(&self, key: &str) -> (r: bool)
        ensures
            r == (spec_get(self@, key@) is Some),
    {
        match self.get(key) {
            Some(_) => true,
            None => false,
        }
    }

    /// Stores `value` under `key`; an earlier value under the same name
    /// is replaced.
    pub fn insert(&mut self, key: String, value: String)
        ensures
            final(self)@ == spec_insert(old(self)@, key@, value@),
    {
        let n: usize = self.entries.len();
        let mut i: usize = 0;
        while i < n
            invariant
                i <= n,
                n == self@.len(),
                self == old(self),
                forall|k: int| 0 <= k < i ==> self@[k].0 != key@,
            decreases n - i,
        {
            if str_eq(self.entries[i].0.as_str(), key.as_str()) {
                proof {
                    lemma_insert_at(self@, key@, value@, i as int);
                }
                self.entries.remove(i);
                self.entries.insert(i, (key, value));
                proof {
                    assert(pair_views(self.entries@) =~= pair_views(old(self).entries@).update(
                        i as int,
                        (key@, value@),
                    ));
                }
                return ;
            }
            i += 1;
        }
        proof {
            lemma_insert_new(self@, key@, value@);
        }
        self.entries.push((key, value));
        proof {
            assert(pair_views(self.entries@) =~= pair_views(old(self).entries@).push(
                (key@, value@),
            ));
        }
    }

    /// The wire text of all pairs, one `name: value` line each.
    pub fn render_lines(&self) -> (r: String)
        ensures
            r@ == spec_header_lines(self@),
    {
        let n: usize = self.entries.len();
        let mut r = String::new();
        let mut i: usize = 0;
        while i < n
            invariant
                i <= n,
                n == self@.len(),
                r@ == spec_header_lines(self@.subrange(0, i as int)),
            decreases n - i,
        {
            r.append(self.entries[i].0.as_str());
            r.append(": ");
            r.append(self.entries[i].1.as_str());
            r.append("\r\n");
            proof {
                lemma_header_lines_push(self@.subrange(0, i as int), self@[i as int]);
                assert(self@.subrange(0, i + 1) =~= self@.subrange(0, i as int).push(
                    self@[i as int],
                ));
            }
            i += 1;
        }
        proof {
            assert(self@.subrange(0, n as int) =~= self@);
        }
        r
    }
}

proof fn lemma_header_lines_push(m: Seq<(Seq<char>, Seq<char>)>, p: (Seq<char>, Seq<char>))
    ensures
        spec_header_lines(m.push(p)) == spec_header_lines(m) + p.0 + ": "@ + p.1 + "\r\n"@,
    decreases m.len(),
{
    if m.len() == 0 {
        assert(m.push(p)[0] == p);
        assert(m.push(p).skip(1) =~= Seq::<(Seq<char>, Seq<char>)>::empty());
        assert(p.0 + ": "@ + p.1 + "\r\n"@ + spec_header_lines(Seq::<(Seq<char>, Seq<char>)>::empty())
            =~= spec_header_lines(m) + p.0 + ": "@ + p.1 + "\r\n"@);
    } else {
        assert(m.push(p)[0] == m[0]);
        assert(m.push(p).skip(1) =~= m.skip(1).push(p));
        lemma_header_lines_push(m.skip(1), p);
        assert(m[0].0 + ": "@ + m[0].1 + "\r\n"@ + (spec_header_lines(m.skip(1)) + p.0 + ": "@ + p.1
            + "\r\n"@) =~= (m[0].0 + ": "@ + m[0].1 + "\r\n"@ + spec_header_lines(m.skip(1))) + p.0
            + ": "@ + p.1 + "\r\n"@);
    }
}

} // verus!
