//! Character-sequence model and verified string utilities: substring search,
//! splitting, trimming, and decimal number conversion. These are the
//! building blocks of the wire-format parsers.

use vstd::prelude::*;

verus! {

// ---------------------------------------------------------------------------
// Character classes
// ---------------------------------------------------------------------------

/// The Unicode white-space characters, the set that `str::trim` removes.
pub open spec fn is_space(c: char) -> bool {
    let u = c as u32;
    (9 <= u && u <= 13) || u == 32 || u == 0x85 || u == 0xA0 || u == 0x1680 || (0x2000 <= u
        && u <= 0x200A) || u == 0x2028 || u == 0x2029 || u == 0x202F || u == 0x205F || u == 0x3000
}

pub fn is_space_char(c: char) -> (r: bool)
    ensures
        r == is_space(c),
{
    let u = c as u32;
    (9 <= u && u <= 13) || u == 32 || u == 0x85 || u == 0xA0 || u == 0x1680 || (0x2000 <= u
        && u <= 0x200A) || u == 0x2028 || u == 0x2029 || u == 0x202F || u == 0x205F || u == 0x3000
}

/// The ASCII decimal digits.
pub open spec fn is_digit(c: char) -> bool {
    48 <= c as u32 && c as u32 <= 57
}

// ---------------------------------------------------------------------------
// Substring search
// ---------------------------------------------------------------------------

/// `pat` occurs in `s` starting at index `i`.
pub open spec fn match_at<T>(s: Seq<T>, pat: Seq<T>, i: int) -> bool {
    0 <= i && i + pat.len() <= s.len() && s.subrange(i, i + pat.len() as int) == pat
}

/// The least index at or after `from` where `pat` occurs in `s`.
pub open spec fn first_match<T>(s: Seq<T>, pat: Seq<T>, from: int) -> Option<int>
    decreases s.len() - from,
    when 0 <= from && 0 < pat.len()
{
    if from + pat.len() > s.len() {
        None
    } else if match_at(s, pat, from) {
        Some(from)
    } else {
        first_match(s, pat, from + 1)
    }
}

/// What `first_match` returns: the least occurrence at or after `from`,
/// or a guarantee that there is none.
pub proof fn lemma_first_match<T>(s: Seq<T>, pat: Seq<T>, from: int)
    requires
        0 <= from,
        0 < pat.len(),
    ensures
        match first_match(s, pat, from) {
            Some(i) => from <= i && match_at(s, pat, i) && (forall|j: int|
                from <= j < i ==> !match_at(s, pat, j)),
            None => forall|j: int| from <= j ==> !match_at(s, pat, j),
        },
    decreases s.len() - from,
{
    if from + pat.len() > s.len() {
    } else if match_at(s, pat, from) {
    } else {
        lemma_first_match(s, pat, from + 1);
    }
}

/// The converse: an occurrence at `i` with none before it pins `first_match` down.
pub proof fn lemma_first_match_exact<T>(s: Seq<T>, pat: Seq<T>, from: int, i: int)
    requires
        0 <= from <= i,
        0 < pat.len(),
        match_at(s, pat, i),
        forall|j: int| from <= j < i ==> !match_at(s, pat, j),
    ensures
        first_match(s, pat, from) == Some(i),
    decreases i - from,
{
    if from < i {
        lemma_first_match_exact(s, pat, from + 1, i);
    }
}

// ---------------------------------------------------------------------------
// Splitting on a separator, with the semantics of `str::split`
// ---------------------------------------------------------------------------

/// The parts of `s` between occurrences of `pat`, scanned left to right;
/// an empty `s` yields one empty part, as `str::split` does.
pub open spec fn spec_split(s: Seq<char>, pat: Seq<char>) -> Seq<Seq<char>>
    decreases s.len(),
    when 0 < pat.len()
{
    if match_at(s, pat, 0) {
        seq![Seq::<char>::empty()] + spec_split(s.skip(pat.len() as int), pat)
    } else if s.len() == 0 {
        seq![s]
    } else {
        let rest = spec_split(s.skip(1), pat);
        rest.update(0, seq![s[0]] + rest[0])
    }
}

pub proof fn lemma_split_nonempty(s: Seq<char>, pat: Seq<char>)
    requires
        0 < pat.len(),
    ensures
        0 < spec_split(s, pat).len(),
    decreases s.len(),
{
    if match_at(s, pat, 0) {
    } else if s.len() == 0 {
    } else {
        lemma_split_nonempty(s.skip(1), pat);
    }
}

/// With no occurrence of `pat`, the whole of `s` is the one part.
pub proof fn lemma_split_whole(s: Seq<char>, pat: Seq<char>)
    requires
        0 < pat.len(),
        forall|j: int| 0 <= j ==> !match_at(s, pat, j),
    ensures
        spec_split(s, pat) == seq![s],
    decreases s.len(),
{
    assert(!match_at(s, pat, 0));
    if s.len() == 0 {
    } else {
        assert forall|j: int| 0 <= j implies !match_at(s.skip(1), pat, j) by {
            assert(!match_at(s, pat, j + 1));
            if match_at(s.skip(1), pat, j) {
                assert(s.subrange(j + 1, j + 1 + pat.len() as int) =~= s.skip(1).subrange(
                    j,
                    j + pat.len() as int,
                ));
            }
        }
        lemma_split_whole(s.skip(1), pat);
        assert(seq![s[0]] + s.skip(1) =~= s);
        assert(spec_split(s, pat) =~= seq![s]);
    }
}

/// A first occurrence at `i` cuts `s` into the part before it and the
/// split of what follows it.
pub proof fn lemma_split_at_first(s: Seq<char>, pat: Seq<char>, i: int)
    requires
        0 < pat.len(),
        match_at(s, pat, i),
        forall|j: int| 0 <= j < i ==> !match_at(s, pat, j),
    ensures
        spec_split(s, pat) == seq![s.subrange(0, i)] + spec_split(
            s.skip(i + pat.len() as int),
            pat,
        ),
    decreases i,
{
    if i == 0 {
        assert(s.subrange(0, 0) =~= Seq::<char>::empty());
        assert(spec_split(s, pat) =~= seq![s.subrange(0, 0)] + spec_split(
            s.skip(pat.len() as int),
            pat,
        ));
    } else {
        assert(!match_at(s, pat, 0));
        assert(s.len() > 0);
        let t = s.skip(1);
        assert(match_at(t, pat, i - 1)) by {
            assert(t.subrange(i - 1, i - 1 + pat.len() as int) =~= s.subrange(
                i,
                i + pat.len() as int,
            ));
        }
        assert forall|j: int| 0 <= j < i - 1 implies !match_at(t, pat, j) by {
            assert(!match_at(s, pat, j + 1));
            if match_at(t, pat, j) {
                assert(s.subrange(j + 1, j + 1 + pat.len() as int) =~= t.subrange(
                    j,
                    j + pat.len() as int,
                ));
            }
        }
        lemma_split_at_first(t, pat, i - 1);
        let rest = spec_split(t, pat);
        lemma_split_nonempty(t.skip(i - 1 + pat.len() as int), pat);
        assert(rest[0] == t.subrange(0, i - 1));
        assert(t.skip(i - 1 + pat.len() as int) =~= s.skip(i + pat.len() as int));
        assert(seq![s[0]] + rest[0] =~= s.subrange(0, i));
        assert(spec_split(s, pat) =~= seq![s.subrange(0, i)] + spec_split(
            s.skip(i + pat.len() as int),
            pat,
        ));
    }
}

// ---------------------------------------------------------------------------
// Executable search and splitting
// ---------------------------------------------------------------------------

/// Whether `pat` occurs in `s` at character index `i`.
pub fn str_match_at(s: &str, pat: &str, i: usize) -> (r: bool)
    requires
        i + pat@.len() <= s@.len(),
        s@.len() <= usize::MAX,
    ensures
        r == match_at(s@, pat@, i as int),
{
    let m: usize = pat.unicode_len();
    let mut j: usize = 0;
    while j < m
        invariant
            j <= m,
            m == pat@.len(),
            i + m <= s@.len(),
            s@.len() <= usize::MAX,
            forall|k: int| 0 <= k < j ==> s@[i + k] == pat@[k],
        decreases m - j,
    {
        if s.get_char(i + j) != pat.get_char(j) {
            proof {
                if match_at(s@, pat@, i as int) {
                    assert(s@.subrange(i as int, i + m as int)[j as int] == pat@[j as int]);
                }
            }
            return false;
        }
        j += 1;
    }
    proof {
        assert(s@.subrange(i as int, i + m as int) =~= pat@);
    }
    true
}

/// The least occurrence of `pat` in `s` at or after `from`, as a character index.
pub fn find_str(s: &str, pat: &str, from: usize) -> (r: Option<usize>)
    requires
        0 < pat@.len(),
        from <= s@.len(),
    ensures
        match r {
            Some(i) => from <= i && first_match(s@, pat@, from as int) == Some(i as int),
            None => first_match(s@, pat@, from as int) is None,
        },
{
    let n: usize = s.unicode_len();
    let m: usize = pat.unicode_len();
    let mut i: usize = from;
    loop
        invariant
            from <= i <= n,
            n == s@.len(),
            m == pat@.len(),
            0 < m,
            first_match(s@, pat@, from as int) == first_match(s@, pat@, i as int),
        decreases n - i,
    {
        if n - i < m {
            return None;
        }
        if str_match_at(s, pat, i) {
            return Some(i);
        }
        i += 1;
    }
}

/// A spec view of a vector of strings.
pub open spec fn views_of(v: Seq<String>) -> Seq<Seq<char>> {
    v.map_values(|p: String| p@)
}

/// Splits `s` on `pat`, as `str::split` does: the parts between occurrences,
/// empty parts included.
pub fn split_string(s: &str, pat: &str) -> (parts: Vec<String>)
    requires
        0 < pat@.len(),
    ensures
        views_of(parts@) == spec_split(s@, pat@),
        0 < parts@.len(),
{
    let n: usize = s.unicode_len();
    let m: usize = pat.unicode_len();
    let mut parts: Vec<String> = Vec::new();
    let mut pos: usize = 0;
    proof {
        assert(s@.skip(0) =~= s@);
        assert(views_of(Seq::<String>::empty()) + spec_split(s@, pat@) =~= spec_split(s@, pat@));
    }
    loop
        invariant
            pos <= n,
            n == s@.len(),
            m == pat@.len(),
            0 < m,
            spec_split(s@, pat@) == views_of(parts@) + spec_split(s@.skip(pos as int), pat@),
        decreases n - pos,
    {
        let found = find_str(s, pat, pos);
        proof {
            lemma_first_match(s@, pat@, pos as int);
        }
        match found {
            Some(i) => {
                let part = s.substring_char(pos, i).to_owned();
                proof {
                    let suffix = s@.skip(pos as int);
                    assert(match_at(suffix, pat@, i - pos)) by {
                        assert(suffix.subrange(i - pos, i - pos + pat@.len() as int) =~= s@.subrange(
                            i as int,
                            i + pat@.len() as int,
                        ));
                    }
                    assert forall|j: int| 0 <= j < i - pos implies !match_at(suffix, pat@, j) by {
                        assert(!match_at(s@, pat@, pos + j));
                        if match_at(suffix, pat@, j) {
                            assert(s@.subrange(pos + j, pos + j + pat@.len() as int) =~= suffix
                                .subrange(j, j + pat@.len() as int));
                        }
                    }
                    lemma_split_at_first(suffix, pat@, i - pos);
                    assert(suffix.subrange(0, i - pos) =~= s@.subrange(pos as int, i as int));
                    assert(suffix.skip(i - pos + pat@.len() as int) =~= s@.skip(
                        i + pat@.len() as int,
                    ));
                    assert(views_of(parts@.push(part)) =~= views_of(parts@) + seq![part@]);
                    assert((views_of(parts@) + seq![part@]) + spec_split(
                        s@.skip(i + pat@.len() as int),
                        pat@,
                    ) =~= views_of(parts@) + (seq![s@.subrange(pos as int, i as int)] + spec_split(
                        s@.skip(i + pat@.len() as int),
                        pat@,
                    )));
                }
                parts.push(part);
                pos = i + m;
            },
            None => {
                let part = s.substring_char(pos, n).to_owned();
                proof {
                    let suffix = s@.skip(pos as int);
                    assert forall|j: int| 0 <= j implies !match_at(suffix, pat@, j) by {
                        if match_at(suffix, pat@, j) {
                            assert(s@.subrange(pos + j, pos + j + pat@.len() as int) =~= suffix
                                .subrange(j, j + pat@.len() as int));
                            assert(match_at(s@, pat@, pos + j));
                        }
                    }
                    lemma_split_whole(suffix, pat@);
                    assert(suffix =~= s@.subrange(pos as int, n as int));
                    assert(views_of(parts@.push(part)) =~= views_of(parts@) + seq![suffix]);
                }
                parts.push(part);
                return parts;
            },
        }
    }
}

// ---------------------------------------------------------------------------
// Trimming, with the semantics of `str::trim`
// ---------------------------------------------------------------------------

pub open spec fn spec_trim_start(s: Seq<char>) -> Seq<char>
    decreases s.len(),
{
    if s.len() > 0 && is_space(s[0]) {
        spec_trim_start(s.skip(1))
    } else {
        s
    }
}

pub open spec fn spec_trim_end(s: Seq<char>) -> Seq<char>
    decreases s.len(),
{
    if s.len() > 0 && is_space(s[s.len() - 1]) {
        spec_trim_end(s.take(s.len() - 1))
    } else {
        s
    }
}

/// `s` without leading and trailing white space.
pub open spec fn spec_trim(s: Seq<char>) -> Seq<char> {
    spec_trim_end(spec_trim_start(s))
}

proof fn lemma_trim_start_skip(s: Seq<char>, i: int)
    requires
        0 <= i <= s.len(),
        forall|k: int| 0 <= k < i ==> is_space(s[k]),
    ensures
        spec_trim_start(s) == spec_trim_start(s.skip(i)),
    decreases i,
{
    if i > 0 {
        assert(is_space(s[0]));
        assert(s.skip(1).skip(i - 1) =~= s.skip(i));
        assert forall|k: int| 0 <= k < i - 1 implies is_space(s.skip(1)[k]) by {
            assert(s.skip(1)[k] == s[k + 1]);
        }
        lemma_trim_start_skip(s.skip(1), i - 1);
    } else {
        assert(s.skip(0) =~= s);
    }
}

proof fn lemma_trim_end_take(s: Seq<char>, j: int)
    requires
        0 <= j <= s.len(),
        forall|k: int| j <= k < s.len() ==> is_space(s[k]),
        j == 0 || !is_space(s[j - 1]),
    ensures
        spec_trim_end(s) == s.take(j),
    decreases s.len() - j,
{
    if j < s.len() {
        assert(is_space(s[s.len() - 1]));
        let t = s.take(s.len() - 1);
        assert forall|k: int| j <= k < t.len() implies is_space(t[k]) by {
            assert(t[k] == s[k]);
        }
        lemma_trim_end_take(t, j);
        assert(t.take(j) =~= s.take(j));
    } else {
        if s.len() > 0 {
            assert(!is_space(s[s.len() - 1]));
        }
        assert(s.take(s.len() as int) =~= s);
    }
}

/// `s` with leading and trailing white space removed, as `str::trim`.
pub fn trim(s: &str) -> (r: &str)
    ensures
        r@ == spec_trim(s@),
{
    let n: usize = s.unicode_len();
    let mut a: usize = 0;
    while a < n && is_space_char(s.get_char(a))
        invariant
            a <= n,
            n == s@.len(),
            forall|k: int| 0 <= k < a ==> is_space(s@[k]),
        decreases n - a,
    {
        a += 1;
    }
    proof {
        lemma_trim_start_skip(s@, a as int);
    }
    if a == n {
        proof {
            assert(s@.skip(n as int) =~= Seq::<char>::empty());
        }
        return s.substring_char(n, n);
    }
    let mut b: usize = n;
    while b > a && is_space_char(s.get_char(b - 1))
        invariant
            a < b <= n,
            n == s@.len(),
            a < n,
            !is_space(s@[a as int]),
            forall|k: int| b <= k < n ==> is_space(s@[k]),
        decreases b,
    {
        proof {
            if b - 1 == a {
                assert(false);
            }
        }
        b -= 1;
    }
    proof {
        assert(b > a);
    }
    proof {
        let t = s@.skip(a as int);
        assert(!is_space(t[0]));
        assert(spec_trim_start(s@) == t);
        assert forall|k: int| b - a <= k < t.len() implies is_space(t[k]) by {
            assert(t[k] == s@[k + a]);
        }
        assert(!is_space(t[b - a - 1]));
        lemma_trim_end_take(t, b - a);
        assert(t.take(b - a) =~= s@.subrange(a as int, b as int));
    }
    s.substring_char(a, b)
}

/// Whether two strings hold the same characters.
pub fn str_eq(a: &str, b: &str) -> (r: bool)
    ensures
        r == (a@ == b@),
{
    let sa: String = a.to_owned();
    let sb: String = b.to_owned();
    sa == sb
}

// ---------------------------------------------------------------------------
// Joining parts back together
// ---------------------------------------------------------------------------

/// Each part followed by `sep`, a trailing separator included.
pub open spec fn spec_concat_each(list: Seq<Seq<char>>, sep: Seq<char>) -> Seq<char>
    decreases list.len(),
{
    if list.len() == 0 {
        Seq::empty()
    } else {
        list[0] + sep + spec_concat_each(list.skip(1), sep)
    }
}

proof fn lemma_concat_each_push(l: Seq<Seq<char>>, x: Seq<char>, sep: Seq<char>)
    ensures
        spec_concat_each(l.push(x), sep) == spec_concat_each(l, sep) + x + sep,
    decreases l.len(),
{
    if l.len() == 0 {
        assert(l.push(x)[0] == x);
        assert(l.push(x).skip(1) =~= Seq::<Seq<char>>::empty());
        assert(x + sep + spec_concat_each(Seq::<Seq<char>>::empty(), sep) =~= spec_concat_each(
            l,
            sep,
        ) + x + sep);
    } else {
        assert(l.push(x).skip(1) =~= l.skip(1).push(x));
        lemma_concat_each_push(l.skip(1), x, sep);
        assert((l[0] + sep + (spec_concat_each(l.skip(1), sep) + x + sep)) =~= ((l[0] + sep
            + spec_concat_each(l.skip(1), sep)) + x + sep));
    }
}

/// Appends each part from index `from` on, each followed by `sep`.
pub fn concat_each_from(parts: &Vec<String>, from: usize, sep: &str) -> (r: String)
    requires
        from <= parts@.len(),
    ensures
        r@ == spec_concat_each(views_of(parts@).skip(from as int), sep@),
{
    let n: usize = parts.len();
    let mut r = String::new();
    let mut i: usize = from;
    while i < n
        invariant
            from <= i <= n,
            n == parts@.len(),
            r@ == spec_concat_each(views_of(parts@).subrange(from as int, i as int), sep@),
        decreases n - i,
    {
        r.append(parts[i].as_str());
        r.append(sep);
        proof {
            let l = views_of(parts@).subrange(from as int, i as int);
            assert(views_of(parts@).subrange(from as int, i + 1) =~= l.push(
                views_of(parts@)[i as int],
            ));
            lemma_concat_each_push(l, views_of(parts@)[i as int], sep@);
        }
        i += 1;
    }
    proof {
        assert(views_of(parts@).subrange(from as int, n as int) =~= views_of(parts@).skip(
            from as int,
        ));
    }
    r
}

// ---------------------------------------------------------------------------
// Decimal numbers
// ---------------------------------------------------------------------------

/// The value of a digit character.
pub open spec fn digit_val(c: char) -> nat
    recommends
        is_digit(c),
{
    (c as u32 - 48) as nat
}

/// The value of a sequence of digit characters, most significant first.
pub open spec fn digits_val(s: Seq<char>) -> nat
    decreases s.len(),
{
    if s.len() == 0 {
        0
    } else {
        digits_val(s.drop_last()) * 10 + digit_val(s.last())
    }
}

/// The digits of a number string: what follows an optional leading `+`.
pub open spec fn digits_part(s: Seq<char>) -> Seq<char> {
    if 0 < s.len() && s[0] == '+' {
        s.skip(1)
    } else {
        s
    }
}

pub open spec fn all_digits(s: Seq<char>) -> bool {
    forall|i: int| 0 <= i < s.len() ==> is_digit(s[i])
}

/// The number a string denotes under `str::parse` for unsigned integers:
/// an optional leading `+`, then one or more digits.
pub open spec fn spec_parse_uint(s: Seq<char>) -> Option<nat> {
    if 0 < digits_part(s).len() && all_digits(digits_part(s)) {
        Some(digits_val(digits_part(s)))
    } else {
        None
    }
}

/// `str::parse::<usize>`: the denoted number, if there is one and it fits.
pub open spec fn spec_parse_usize(s: Seq<char>) -> Option<usize> {
    match spec_parse_uint(s) {
        Some(n) => if n <= usize::MAX {
            Some(n as usize)
        } else {
            None
        },
        None => None,
    }
}

/// `str::parse::<u16>`: the denoted number, if there is one and it fits.
pub open spec fn spec_parse_u16(s: Seq<char>) -> Option<u16> {
    match spec_parse_uint(s) {
        Some(n) => if n <= u16::MAX {
            Some(n as u16)
        } else {
            None
        },
        None => None,
    }
}

proof fn lemma_digits_val_grows(t: Seq<char>, k: int)
    requires
        0 <= k <= t.len(),
    ensures
        digits_val(t.take(k)) <= digits_val(t),
    decreases t.len() - k,
{
    if k < t.len() {
        let u = t.take(k + 1);
        assert(u.drop_last() =~= t.take(k));
        assert(digits_val(t.take(k)) <= digits_val(u));
        lemma_digits_val_grows(t, k + 1);
        assert(t.take(t.len() as int) =~= t);
    } else {
        assert(t.take(t.len() as int) =~= t);
    }
}

/// Parses an unsigned decimal number as `str::parse::<usize>` does.
pub fn parse_usize(s: &str) -> (r: Option<usize>)
    ensures
        r == spec_parse_usize(s@),
{
    let n: usize = s.unicode_len();
    let start: usize = if n > 0 && s.get_char(0) == '+' {
        1
    } else {
        0
    };
    proof {
        assert forall|k: int| 0 <= k < digits_part(s@).len() implies digits_part(s@)[k] == s@[k
            + start] by {}
    }
    if start == n {
        return None;
    }
    let mut i: usize = start;
    let mut acc: usize = 0;
    while i < n
        invariant
            start <= i <= n,
            start < n,
            n == s@.len(),
            digits_part(s@).len() == n - start,
            forall|k: int| 0 <= k < digits_part(s@).len() ==> digits_part(s@)[k] == s@[k + start],
            forall|k: int| 0 <= k < i - start ==> is_digit(digits_part(s@)[k]),
            acc == digits_val(digits_part(s@).take(i - start)),
        decreases n - i,
    {
        let c = s.get_char(i);
        let u = c as u32;
        if !(48 <= u && u <= 57) {
            proof {
                assert(!is_digit(digits_part(s@)[i - start]));
                assert(!all_digits(digits_part(s@)));
            }
            return None;
        }
        let d: usize = (u - 48) as usize;
        let next = match acc.checked_mul(10) {
            Some(x) => x.checked_add(d),
            None => None,
        };
        proof {
            let w = digits_part(s@).take(i - start + 1);
            assert(w.drop_last() =~= digits_part(s@).take(i - start));
            assert(digits_val(w) == acc * 10 + d);
        }
        match next {
            Some(x) => {
                acc = x;
            },
            None => {
                proof {
                    if all_digits(digits_part(s@)) {
                        lemma_digits_val_grows(digits_part(s@), i - start + 1);
                        assert(digits_val(digits_part(s@)) > usize::MAX);
                    }
                }
                return None;
            },
        }
        i += 1;
    }
    proof {
        assert(digits_part(s@).take(digits_part(s@).len() as int) =~= digits_part(s@));
        assert(all_digits(digits_part(s@)));
    }
    Some(acc)
}

/// Parses an unsigned decimal number as `str::parse::<u16>` does.
pub fn parse_u16(s: &str) -> (r: Option<u16>)
    ensures
        r == spec_parse_u16(s@),
{
    match parse_usize(s) {
        Some(v) => if v <= 65535 {
            Some(v as u16)
        } else {
            None
        },
        None => None,
    }
}

// ---------------------------------------------------------------------------
// Numbers to strings
// ---------------------------------------------------------------------------

/// The digit character for a value below ten.
pub open spec fn digit_char(n: nat) -> char
    recommends
        n < 10,
{
    if n == 0 {
        '0'
    } else if n == 1 {
        '1'
    } else if n == 2 {
        '2'
    } else if n == 3 {
        '3'
    } else if n == 4 {
        '4'
    } else if n == 5 {
        '5'
    } else if n == 6 {
        '6'
    } else if n == 7 {
        '7'
    } else if n == 8 {
        '8'
    } else {
        '9'
    }
}

/// The decimal digits of `n`, most significant first, without leading zeros.
pub open spec fn spec_uint_string(n: nat) -> Seq<char>
    decreases n,
{
    if n < 10 {
        seq![digit_char(n)]
    } else {
        spec_uint_string(n / 10) + seq![digit_char(n % 10)]
    }
}

fn digit_str(d: usize) -> (r: &'static str)
    requires
        d < 10,
    ensures
        r@ == seq![digit_char(d as nat)],
{
    proof {
        reveal_strlit("0");
        reveal_strlit("1");
        reveal_strlit("2");
        reveal_strlit("3");
        reveal_strlit("4");
        reveal_strlit("5");
        reveal_strlit("6");
        reveal_strlit("7");
        reveal_strlit("8");
        reveal_strlit("9");
    }
    let r = match d {
        0 => "0",
        1 => "1",
        2 => "2",
        3 => "3",
        4 => "4",
        5 => "5",
        6 => "6",
        7 => "7",
        8 => "8",
        _ => "9",
    };
    proof {
        assert(r@ =~= seq![digit_char(d as nat)]);
    }
    r
}

/// Writes `n` in decimal, as `usize` values are displayed.
pub fn usize_to_string(n: usize) -> (r: String)
    ensures
        r@ == spec_uint_string(n as nat),
    decreases n,
{
    if n < 10 {
        digit_str(n).to_owned()
    } else {
        let mut s = usize_to_string(n / 10);
        s.append(digit_str(n % 10));
        s
    }
}


proof fn lemma_uint_string_digits(n: nat)
    ensures
        0 < spec_uint_string(n).len(),
        all_digits(spec_uint_string(n)),
        digits_val(spec_uint_string(n)) == n,
        is_digit(spec_uint_string(n)[0]),
    decreases n,
{
    if n < 10 {
        assert(spec_uint_string(n) =~= seq![digit_char(n)]);
        assert(seq![digit_char(n)].drop_last() =~= Seq::<char>::empty());
        assert(digits_val(Seq::<char>::empty()) == 0);
        assert(seq![digit_char(n)].last() == digit_char(n));
        assert(digits_val(seq![digit_char(n)]) == digit_val(digit_char(n)));
    } else {
        lemma_uint_string_digits(n / 10);
        let s = spec_uint_string(n / 10) + seq![digit_char(n % 10)];
        assert(s.drop_last() =~= spec_uint_string(n / 10));
        assert(s.last() == digit_char(n % 10));
        assert(digits_val(s) == (n / 10) * 10 + digit_val(digit_char(n % 10)));
        assert(digit_val(digit_char(n % 10)) == n % 10);
        assert((n / 10) * 10 + n % 10 == n) by (nonlinear_arith);
        assert forall|i: int| 0 <= i < s.len() implies is_digit(s[i]) by {
            if i < s.len() - 1 {
                assert(s[i] == spec_uint_string(n / 10)[i]);
            }
        }
    }
}

/// A written number reads back: the decimal rendering of any value parses
/// to exactly that value. In particular a generated `Content-Length`
/// always announces the body length it was computed from.
pub proof fn lemma_uint_string_round_trip(n: usize)
    ensures
        spec_parse_usize(spec_uint_string(n as nat)) == Some(n),
{
    lemma_uint_string_digits(n as nat);
    let s = spec_uint_string(n as nat);
    assert(s[0] != '+') by {
        assert(is_digit(s[0]));
    }
    assert(digits_part(s) == s);
}

} // verus!
