//! Character-level text operations used by the protocol and CLI code:
//! Unicode whitespace, trimming, line scanning and substring tests.

use vstd::prelude::*;

verus! {

broadcast use vstd::string::group_string_axioms;

/// The Unicode `White_Space` property, the set that `char::is_whitespace` tests.
pub open spec fn is_ws(c: char) -> bool {
    let u = c as u32;
    ||| 0x09 <= u <= 0x0D
    ||| u == 0x20
    ||| u == 0x85
    ||| u == 0xA0
    ||| u == 0x1680
    ||| 0x2000 <= u <= 0x200A
    ||| u == 0x2028
    ||| u == 0x2029
    ||| u == 0x202F
    ||| u == 0x205F
    ||| u == 0x3000
}

/// `s` without its leading whitespace.
pub open spec fn trim_start(s: Seq<char>) -> Seq<char>
    decreases s.len(),
{
    if s.len() > 0 && is_ws(s[0]) {
        trim_start(s.drop_first())
    } else {
        s
    }
}

/// `s` without its trailing whitespace.
pub open spec fn trim_end(s: Seq<char>) -> Seq<char>
    decreases s.len(),
{
    if s.len() > 0 && is_ws(s.last()) {
        trim_end(s.drop_last())
    } else {
        s
    }
}

/// `s` without leading and trailing whitespace (what `str::trim` returns).
pub open spec fn trimmed(s: Seq<char>) -> Seq<char> {
    trim_end(trim_start(s))
}

/// The index of the first `'\n'` in `s`, or its length when there is none.
pub open spec fn line_end(s: Seq<char>) -> int
    decreases s.len(),
{
    if s.len() == 0 {
        0
    } else if s[0] == '\n' {
        0
    } else {
        1 + line_end(s.drop_first())
    }
}

/// The first line of `s` that holds something besides whitespace, trimmed.
/// Lines are the pieces between `'\n'` characters; a `'\r'` before a `'\n'`
/// is whitespace and so disappears in the trim.
pub open spec fn first_nonempty_line_of(s: Seq<char>) -> Option<Seq<char>>
    decreases s.len(),
{
    let e = line_end(s);
    if e < 0 || e > s.len() {
        None
    } else if trimmed(s.take(e)).len() > 0 {
        Some(trimmed(s.take(e)))
    } else if e < s.len() {
        first_nonempty_line_of(s.skip(e + 1))
    } else {
        None
    }
}

/// The first line of `s`, trimmed; `None` for the empty text, which has no line.
pub open spec fn first_line_of(s: Seq<char>) -> Option<Seq<char>> {
    if s.len() == 0 {
        None
    } else {
        Some(trimmed(s.take(line_end(s))))
    }
}

/// `needle` occurs in `hay` as a contiguous piece.
pub open spec fn has_infix(hay: Seq<char>, needle: Seq<char>) -> bool {
    exists|i: int|
        0 <= i && i + needle.len() <= hay.len() && #[trigger] hay.subrange(i, i + needle.len())
            == needle
}

/// `hay` ends with `suffix`.
pub open spec fn has_suffix(hay: Seq<char>, suffix: Seq<char>) -> bool {
    suffix.len() <= hay.len() && hay.subrange(hay.len() - suffix.len(), hay.len() as int)
        == suffix
}

pub proof fn lemma_line_end_bounds(s: Seq<char>)
    ensures
        0 <= line_end(s) <= s.len(),
        line_end(s) < s.len() ==> s[line_end(s)] == '\n',
        forall|k: int| 0 <= k < line_end(s) ==> s[k] != '\n',
    decreases s.len(),
{
    if s.len() > 0 && s[0] != '\n' {
        lemma_line_end_bounds(s.drop_first());
        assert forall|k: int| 0 <= k < line_end(s) implies s[k] != '\n' by {
            if k > 0 {
                assert(s[k] == s.drop_first()[k - 1]);
            }
        }
    }
}

/// `line_end` is the first `'\n'`: it is determined by any index that has
/// a `'\n'` and no `'\n'` before it.
pub proof fn lemma_line_end_at(s: Seq<char>, e: int)
    requires
        0 <= e <= s.len(),
        e < s.len() ==> s[e] == '\n',
        forall|k: int| 0 <= k < e ==> s[k] != '\n',
    ensures
        line_end(s) == e,
    decreases s.len(),
{
    if s.len() > 0 && e > 0 {
        assert(s[0] != '\n');
        assert forall|k: int| 0 <= k < e - 1 implies s.drop_first()[k] != '\n' by {
            assert(s.drop_first()[k] == s[k + 1]);
        }
        if e - 1 < s.len() - 1 {
            assert(s.drop_first()[e - 1] == s[e]);
        }
        lemma_line_end_at(s.drop_first(), e - 1);
    }
}

pub proof fn lemma_trim_start_skip(s: Seq<char>, i: int)
    requires
        0 <= i <= s.len(),
        forall|k: int| 0 <= k < i ==> is_ws(s[k]),
    ensures
        trim_start(s) == trim_start(s.skip(i)),
    decreases i,
{
    if i > 0 {
        assert(is_ws(s[0]));
        assert forall|k: int| 0 <= k < i - 1 implies is_ws(s.drop_first()[k]) by {
            assert(s.drop_first()[k] == s[k + 1]);
        }
        lemma_trim_start_skip(s.drop_first(), i - 1);
        assert(s.drop_first().skip(i - 1) =~= s.skip(i));
    } else {
        assert(s.skip(0) =~= s);
    }
}

pub proof fn lemma_trim_end_take(s: Seq<char>, j: int)
    requires
        0 <= j <= s.len(),
        forall|k: int| j <= k < s.len() ==> is_ws(s[k]),
    ensures
        trim_end(s) == trim_end(s.take(j)),
    decreases s.len() - j,
{
    if j < s.len() {
        assert(is_ws(s.last()));
        assert forall|k: int| j <= k < s.len() - 1 implies is_ws(s.drop_last()[k]) by {
            assert(s.drop_last()[k] == s[k]);
        }
        lemma_trim_end_take(s.drop_last(), j);
        assert(s.drop_last().take(j) =~= s.take(j));
    } else {
        assert(s.take(j) =~= s);
    }
}

/// Whether `c` is whitespace, by the Unicode `White_Space` property.
pub fn is_whitespace(c: char) -> (b: bool)
    ensures
        b == is_ws(c),
{
    let u = c as u32;
    (0x09 <= u && u <= 0x0D) || u == 0x20 || u == 0x85 || u == 0xA0 || u == 0x1680 || (0x2000
        <= u && u <= 0x200A) || u == 0x2028 || u == 0x2029 || u == 0x202F || u == 0x205F || u
        == 0x3000
}

/// The characters of `s`, in order.
pub fn chars_of(s: &str) -> (v: Vec<char>)
    ensures
        v@ == s@,
{
    let mut out: Vec<char> = Vec::new();
    for c in it: s.chars()
        invariant
            out@ == it.seq().take(it.index() as int),
    {
        out.push(c);
    }
    out
}

/// The bounds `(lo, hi)` of `cs.subrange(from, to)` once leading and trailing
/// whitespace are cut off.
fn trim_bounds(cs: &Vec<char>, from: usize, to: usize) -> (r: (usize, usize))
    requires
        from <= to <= cs@.len(),
    ensures
        from <= r.0 <= r.1 <= to,
        cs@.subrange(r.0 as int, r.1 as int) == trimmed(cs@.subrange(from as int, to as int)),
{
    let ghost s = cs@.subrange(from as int, to as int);
    let mut lo = from;
    while lo < to && is_whitespace(cs[lo])
        invariant
            from <= lo <= to <= cs@.len(),
            forall|k: int| from <= k < lo ==> is_ws(cs@[k]),
        decreases to - lo,
    {
        lo = lo + 1;
    }
    let mut hi = to;
    while hi > lo && is_whitespace(cs[hi - 1])
        invariant
            from <= lo <= hi <= to <= cs@.len(),
            forall|k: int| hi <= k < to ==> is_ws(cs@[k]),
        decreases hi - lo,
    {
        hi = hi - 1;
    }
    proof {
        let lo_rel = lo - from;
        assert forall|k: int| 0 <= k < lo_rel implies is_ws(s[k]) by {
            assert(s[k] == cs@[from + k]);
        }
        lemma_trim_start_skip(s, lo_rel);
        let t = s.skip(lo_rel);
        assert(t =~= cs@.subrange(lo as int, to as int));
        if lo < to {
            assert(!is_ws(t[0]));
        }
        assert(trim_start(t) == t);
        let hi_rel = hi - lo;
        assert forall|k: int| hi_rel <= k < t.len() implies is_ws(t[k]) by {
            assert(t[k] == cs@[lo + k]);
        }
        lemma_trim_end_take(t, hi_rel);
        let u = t.take(hi_rel);
        assert(u =~= cs@.subrange(lo as int, hi as int));
        if hi > lo {
            assert(u.last() == cs@[hi - 1]);
        }
        assert(trim_end(u) == u);
    }
    (lo, hi)
}

/// `s` with leading and trailing whitespace removed.
pub fn trim(s: &str) -> (r: String)
    ensures
        r@ == trimmed(s@),
{
    let cs = chars_of(s);
    let (lo, hi) = trim_bounds(&cs, 0, cs.len());
    assert(cs@.subrange(0, cs@.len() as int) =~= s@);
    s.substring_char(lo, hi).to_owned()
}

/// Index of the first `'\n'` at or after `from`, or `cs.len()`.
fn find_newline(cs: &Vec<char>, from: usize) -> (e: usize)
    requires
        from <= cs@.len(),
    ensures
        from <= e <= cs@.len(),
        e - from == line_end(cs@.skip(from as int)),
{
    let mut e = from;
    while e < cs.len() && cs[e] != '\n'
        invariant
            from <= e <= cs@.len(),
            forall|k: int| from <= k < e ==> cs@[k] != '\n',
        decreases cs@.len() - e,
    {
        e = e + 1;
    }
    proof {
        let t = cs@.skip(from as int);
        assert forall|k: int| 0 <= k < e - from implies t[k] != '\n' by {
            assert(t[k] == cs@[from + k]);
        }
        if e < cs@.len() {
            assert(t[e - from] == cs@[e as int]);
        }
        lemma_line_end_at(t, e - from);
    }
    e
}

/// The first line of `s` that is not blank, trimmed.
pub fn first_nonempty_line_in(s: &str) -> (r: Option<String>)
    ensures
        r matches Some(t) ==> first_nonempty_line_of(s@) == Some(t@),
        r is None ==> first_nonempty_line_of(s@) is None,
{
    let cs = chars_of(s);
    let n = cs.len();
    let mut start: usize = 0;
    assert(s@.skip(0) =~= s@);
    while start <= n
        invariant
            n == cs@.len(),
            cs@ == s@,
            start <= n + 1,
            start <= n ==> first_nonempty_line_of(s@) == first_nonempty_line_of(
                s@.skip(start as int),
            ),
            start > n ==> first_nonempty_line_of(s@) is None,
        decreases n + 1 - start,
    {
        let e = find_newline(&cs, start);
        let (lo, hi) = trim_bounds(&cs, start, e);
        proof {
            let t = s@.skip(start as int);
            assert(t.take(e - start) =~= cs@.subrange(start as int, e as int));
            lemma_line_end_bounds(t);
        }
        if lo < hi {
            return Some(s.substring_char(lo, hi).to_owned());
        }
        if e >= n {
            return None;
        }
        proof {
            let t = s@.skip(start as int);
            assert(t.skip(e - start + 1) =~= s@.skip(e + 1));
        }
        start = e + 1;
    }
    None
}

/// The first line of `s`, trimmed, or `None` when `s` is empty.
pub fn first_line_in(s: &str) -> (r: Option<String>)
    ensures
        r matches Some(t) ==> first_line_of(s@) == Some(t@),
        r is None ==> first_line_of(s@) is None,
{
    let cs = chars_of(s);
    if cs.len() == 0 {
        return None;
    }
    let e = find_newline(&cs, 0);
    let (lo, hi) = trim_bounds(&cs, 0, e);
    proof {
        assert(cs@.skip(0) =~= cs@);
        assert(cs@.take(e as int) =~= cs@.subrange(0, e as int));
    }
    Some(s.substring_char(lo, hi).to_owned())
}

/// Whether `a` and `b` hold the same characters.
pub fn same_text(a: &str, b: &str) -> (r: bool)
    ensures
        r == (a@ == b@),
{
    let x = chars_of(a);
    let y = chars_of(b);
    if x.len() != y.len() {
        return false;
    }
    let mut i: usize = 0;
    while i < x.len()
        invariant
            x@ == a@,
            y@ == b@,
            x@.len() == y@.len(),
            i <= x@.len(),
            forall|k: int| 0 <= k < i ==> x@[k] == y@[k],
        decreases x@.len() - i,
    {
        if x[i] != y[i] {
            assert(x@[i as int] != y@[i as int]);
            return false;
        }
        i = i + 1;
    }
    assert(x@ =~= y@);
    true
}

/// Whether `cs` holds `pat` starting at index `at`.
fn matches_at(cs: &Vec<char>, pat: &Vec<char>, at: usize) -> (r: bool)
    requires
        at + pat@.len() <= cs@.len(),
    ensures
        r == (cs@.subrange(at as int, at + pat@.len()) == pat@),
{
    let mut k: usize = 0;
    while k < pat.len()
        invariant
            at + pat@.len() <= cs@.len(),
            pat@.len() == pat.len(),
            cs@.len() == cs.len(),
            at + k <= cs.len(),
            k <= pat@.len(),
            forall|j: int| 0 <= j < k ==> cs@[at + j] == pat@[j],
        decreases pat@.len() - k,
    {
        if cs[at + k] != pat[k] {
            assert(cs@.subrange(at as int, at + pat@.len())[k as int] != pat@[k as int]);
            return false;
        }
        k = k + 1;
    }
    assert(cs@.subrange(at as int, at + pat@.len()) =~= pat@);
    true
}

/// Whether `n` occurs in `h`.
pub fn contains_chars(h: &Vec<char>, n: &Vec<char>) -> (r: bool)
    ensures
        r == has_infix(h@, n@),
{
    if n.len() > h.len() {
        return false;
    }
    let last = h.len() - n.len();
    let mut i: usize = 0;
    while i < last
        invariant
            last == h@.len() - n@.len(),
            i <= last,
            forall|k: int| 0 <= k < i ==> #[trigger] h@.subrange(k, k + n@.len()) != n@,
        decreases last - i,
    {
        if matches_at(h, n, i) {
            return true;
        }
        i = i + 1;
    }
    let r = matches_at(h, n, last);
    proof {
        if !r {
            assert forall|k: int|
                0 <= k && k + n@.len() <= h@.len() implies #[trigger] h@.subrange(
                k,
                k + n@.len(),
            ) != n@ by {
                if k < last {
                } else {
                    assert(k == last);
                }
            }
        }
    }
    r
}

/// Whether `needle` occurs in `hay` (`str::contains` with a string pattern).
pub fn contains_text(hay: &str, needle: &str) -> (r: bool)
    ensures
        r == has_infix(hay@, needle@),
{
    let h = chars_of(hay);
    let n = chars_of(needle);
    contains_chars(&h, &n)
}

/// `c` in lower case when it is an ASCII upper-case letter.
pub open spec fn lower_char(c: char) -> char {
    if 'A' <= c <= 'Z' {
        (((c as u32) + 32) as u8) as char
    } else {
        c
    }
}

/// `s` with ASCII letters in lower case (`str::to_ascii_lowercase`).
pub open spec fn ascii_lower(s: Seq<char>) -> Seq<char> {
    Seq::new(s.len(), |i: int| lower_char(s[i]))
}

/// The characters of `s` with ASCII letters in lower case.
pub fn ascii_lowercase_chars(s: &str) -> (r: Vec<char>)
    ensures
        r@ == ascii_lower(s@),
{
    let cs = chars_of(s);
    let mut out: Vec<char> = Vec::new();
    let mut i: usize = 0;
    while i < cs.len()
        invariant
            cs@ == s@,
            i <= cs@.len(),
            out@ == ascii_lower(s@).take(i as int),
        decreases cs@.len() - i,
    {
        let c = cs[i];
        let l = if 'A' <= c && c <= 'Z' {
            (((c as u32) + 32) as u8) as char
        } else {
            c
        };
        out.push(l);
        proof {
            assert(ascii_lower(s@).take(i + 1) =~= ascii_lower(s@).take(i as int).push(l));
        }
        i = i + 1;
    }
    assert(ascii_lower(s@).take(cs@.len() as int) =~= ascii_lower(s@));
    out
}

/// Whether `hay` ends with `suffix` (`str::ends_with` with a string pattern).
pub fn ends_with_text(hay: &str, suffix: &str) -> (r: bool)
    ensures
        r == has_suffix(hay@, suffix@),
{
    let h = chars_of(hay);
    let n = chars_of(suffix);
    if n.len() > h.len() {
        return false;
    }
    matches_at(&h, &n, h.len() - n.len())
}

} // verus!
