//! Character-level text handling: whitespace, trimming, line and word splitting,
//! and searching, stated over `Seq<char>` and proved against those statements.

use vstd::prelude::*;
use vstd::string::*;

verus! {

/// Unicode `White_Space` code points, the set that `char::is_whitespace` tests.
pub open spec fn is_ws(c: char) -> bool {
    let u = c as u32;
    ||| 0x09 <= u <= 0x0D
    ||| u == 0x20
    ||| u == 0x85
    ||| u == 0xA0
    ||| u == 0x1680
    ||| 0x2000 <= u <= 0x200A
    ||| u == 0x2028
    ||| u == 0x2029
    ||| u == 0x202F
    ||| u == 0x205F
    ||| u == 0x3000
}

/// `s` without its leading whitespace.
pub open spec fn trim_start(s: Seq<char>) -> Seq<char>
    decreases s.len(),
{
    if s.len() > 0 && is_ws(s[0]) {
        trim_start(s.drop_first())
    } else {
        s
    }
}

/// `s` without its trailing whitespace.
pub open spec fn trim_end(s: Seq<char>) -> Seq<char>
    decreases s.len(),
{
    if s.len() > 0 && is_ws(s.last()) {
        trim_end(s.drop_last())
    } else {
        s
    }
}

/// `s` without leading and trailing whitespace, as `str::trim` gives it.
pub open spec fn trim(s: Seq<char>) -> Seq<char> {
    trim_end(trim_start(s))
}

/// `s` cut at every `'\n'`: one more piece than there are newlines, none of
/// them holding a newline.
pub open spec fn split_newlines(s: Seq<char>) -> Seq<Seq<char>>
    decreases s.len(),
{
    if s.len() == 0 {
        seq![Seq::<char>::empty()]
    } else {
        let w = split_newlines(s.drop_last());
        if s.last() == '\n' {
            w.push(Seq::<char>::empty())
        } else {
            w.update(w.len() - 1, w.last().push(s.last()))
        }
    }
}

/// `t` without one final carriage return, if it has one.
pub open spec fn strip_cr(t: Seq<char>) -> Seq<char> {
    if t.len() > 0 && t.last() == '\r' {
        t.drop_last()
    } else {
        t
    }
}

/// The lines of `s`, as `str::lines` yields them: split at `"\n"` or `"\r\n"`,
/// without the line endings, and with no empty line after a final line ending.
pub open spec fn lines(s: Seq<char>) -> Seq<Seq<char>> {
    let g = split_newlines(s);
    let k = g.len() - 1;
    g.take(k).map_values(|t: Seq<char>| strip_cr(t)) + if g[k].len() == 0 {
        Seq::<Seq<char>>::empty()
    } else {
        seq![g[k]]
    }
}

/// The maximal runs of non-whitespace characters of `s`, in order, as
/// `str::split_whitespace` yields them.
pub open spec fn words(s: Seq<char>) -> Seq<Seq<char>>
    decreases s.len(),
{
    if s.len() == 0 {
        Seq::<Seq<char>>::empty()
    } else {
        let w = words(s.drop_last());
        let c = s.last();
        if is_ws(c) {
            w
        } else if s.len() >= 2 && !is_ws(s[s.len() - 2]) {
            w.update(w.len() - 1, w.last().push(c))
        } else {
            w.push(seq![c])
        }
    }
}

/// The views of a list of strings.
pub open spec fn views(v: Seq<String>) -> Seq<Seq<char>> {
    v.map_values(|x: String| x@)
}

/// The first position at or after `i` where `pat` occurs in `s`, as
/// `str::find` would report it (counted in characters).
pub open spec fn find_from(s: Seq<char>, pat: Seq<char>, i: nat) -> Option<int>
    decreases s.len() - i,
{
    if i + pat.len() > s.len() {
        None
    } else if pat.len() == 0 || s.subrange(i as int, (i + pat.len()) as int) == pat {
        Some(i as int)
    } else {
        find_from(s, pat, i + 1)
    }
}

/// The first position where `pat` occurs in `s`.
pub open spec fn find(s: Seq<char>, pat: Seq<char>) -> Option<int> {
    find_from(s, pat, 0)
}

/// The last position of `c` in `s`, as `str::rfind` with a `char` reports it.
pub open spec fn rfind_char(s: Seq<char>, c: char) -> Option<int>
    decreases s.len(),
{
    if s.len() == 0 {
        None
    } else if s.last() == c {
        Some(s.len() - 1)
    } else {
        rfind_char(s.drop_last(), c)
    }
}

/// A position held in a `usize`, read as an integer.
pub open spec fn pos_view(r: Option<usize>) -> Option<int> {
    match r {
        Some(i) => Some(i as int),
        None => None,
    }
}

/// Whether `c` is a Unicode whitespace character.
pub fn is_whitespace(c: char) -> (b: bool)
    ensures
        b == is_ws(c),
{
    let u = c as u32;
    (0x09 <= u && u <= 0x0D) || u == 0x20 || u == 0x85 || u == 0xA0 || u == 0x1680 || (0x2000
        <= u && u <= 0x200A) || u == 0x2028 || u == 0x2029 || u == 0x202F || u == 0x205F || u
        == 0x3000
}

/// The characters of `s`, in order.
pub fn chars_of(s: &str) -> (v: Vec<char>)
    ensures
        v@ == s@,
{
    let mut v: Vec<char> = Vec::new();
    for c in it: s.chars()
        invariant
            v@ == it.seq().take(it.index() as int),
    {
        v.push(c);
    }
    v
}

/// The bounds of the trimmed part of `cs[lo..hi]`.
pub fn trim_range(cs: &Vec<char>, lo: usize, hi: usize) -> (r: (usize, usize))
    requires
        lo <= hi <= cs@.len(),
    ensures
        lo <= r.0 <= r.1 <= hi,
        cs@.subrange(r.0 as int, r.1 as int) == trim(cs@.subrange(lo as int, hi as int)),
{
    let ghost s = cs@.subrange(lo as int, hi as int);
    let mut i = lo;
    while i < hi && is_whitespace(cs[i])
        invariant
            lo <= i <= hi <= cs@.len(),
            s == cs@.subrange(lo as int, hi as int),
            trim_start(s) == trim_start(cs@.subrange(i as int, hi as int)),
        decreases hi - i,
    {
        assert(cs@.subrange(i as int, hi as int).drop_first() =~= cs@.subrange(
            i + 1,
            hi as int,
        ));
        i = i + 1;
    }
    let mut j = hi;
    while j > i && is_whitespace(cs[j - 1])
        invariant
            lo <= i <= j <= hi <= cs@.len(),
            trim_start(s) == cs@.subrange(i as int, hi as int),
            trim(s) == trim_end(cs@.subrange(i as int, j as int)),
        decreases j - i,
    {
        assert(cs@.subrange(i as int, j as int).drop_last() =~= cs@.subrange(
            i as int,
            j - 1,
        ));
        j = j - 1;
    }
    (i, j)
}

/// `s` without leading and trailing whitespace.
pub fn trim_str(s: &str) -> (t: String)
    ensures
        t@ == trim(s@),
{
    let cs = chars_of(s);
    let (a, b) = trim_range(&cs, 0, cs.len());
    assert(cs@.subrange(0, cs@.len() as int) =~= cs@);
    String::from_str(s.substring_char(a, b))
}

/// The lines of `s`, as `str::lines` yields them.
pub fn split_lines(s: &str) -> (r: Vec<String>)
    ensures
        views(r@) == lines(s@),
{
    let cs = chars_of(s);
    let n = cs.len();
    let mut starts: Vec<usize> = Vec::new();
    let mut ends: Vec<usize> = Vec::new();
    let mut st: usize = 0;
    let mut i: usize = 0;
    while i < n
        invariant
            n == cs@.len(),
            st <= i <= n,
            starts@.len() == ends@.len(),
            split_newlines(cs@.take(i as int)).len() == starts@.len() + 1,
            forall|k: int| 0 <= k < starts@.len() ==> #[trigger] starts@[k] <= ends@[k] <= n,
            forall|k: int|
                0 <= k < starts@.len() ==> #[trigger] split_newlines(cs@.take(i as int))[k]
                    == cs@.subrange(starts@[k] as int, ends@[k] as int),
            split_newlines(cs@.take(i as int)).last() == cs@.subrange(st as int, i as int),
        decreases n - i,
    {
        let ghost prev = split_newlines(cs@.take(i as int));
        assert(cs@.take(i + 1).drop_last() =~= cs@.take(i as int));
        assert(cs@.take(i + 1).last() == cs@[i as int]);
        if cs[i] == '\n' {
            starts.push(st);
            ends.push(i);
            st = i + 1;
            assert(cs@.subrange(st as int, i + 1) =~= Seq::<char>::empty());
            assert forall|k: int| 0 <= k < starts@.len() implies #[trigger] split_newlines(
                cs@.take(i + 1),
            )[k] == cs@.subrange(starts@[k] as int, ends@[k] as int) by {
                assert(split_newlines(cs@.take(i + 1))[k] == prev[k]);
            }
        } else {
            assert(cs@.subrange(st as int, i + 1) =~= cs@.subrange(st as int, i as int).push(
                cs@[i as int],
            ));
            assert forall|k: int| 0 <= k < starts@.len() implies #[trigger] split_newlines(
                cs@.take(i + 1),
            )[k] == cs@.subrange(starts@[k] as int, ends@[k] as int) by {
                assert(split_newlines(cs@.take(i + 1))[k] == prev[k]);
            }
        }
        i = i + 1;
    }
    assert(cs@.take(n as int) =~= cs@);
    let ghost g = split_newlines(cs@);
    assert(g == split_newlines(cs@.take(i as int)));
    let ghost k = g.len() - 1;
    let mut r: Vec<String> = Vec::new();
    let mut j: usize = 0;
    while j < starts.len()
        invariant
            n == cs@.len(),
            cs@ == s@,
            g == split_newlines(cs@),
            k == g.len() - 1,
            starts@.len() == ends@.len(),
            k == starts@.len(),
            forall|q: int| 0 <= q < starts@.len() ==> #[trigger] starts@[q] <= ends@[q] <= n,
            forall|q: int|
                0 <= q < starts@.len() ==> #[trigger] g[q] == cs@.subrange(
                    starts@[q] as int,
                    ends@[q] as int,
                ),
            0 <= j <= starts@.len(),
            views(r@) =~= g.take(j as int).map_values(|t: Seq<char>| strip_cr(t)),
        decreases starts.len() - j,
    {
        let a = starts[j];
        let mut b = ends[j];
        if b > a && cs[b - 1] == '\r' {
            b = b - 1;
        }
        assert(cs@.subrange(a as int, b as int) == strip_cr(g[j as int])) by {
            assert(g[j as int] == cs@.subrange(a as int, ends@[j as int] as int));
            if ends@[j as int] > a && cs@[ends@[j as int] - 1] == '\r' {
                assert(cs@.subrange(a as int, ends@[j as int] - 1) =~= cs@.subrange(
                    a as int,
                    ends@[j as int] as int,
                ).drop_last());
            }
        }
        let ghost before = views(r@);
        r.push(String::from_str(s.substring_char(a, b)));
        assert(views(r@) =~= before.push(strip_cr(g[j as int])));
        assert(g.take(j + 1).map_values(|t: Seq<char>| strip_cr(t)) =~= g.take(
            j as int,
        ).map_values(|t: Seq<char>| strip_cr(t)).push(strip_cr(g[j as int])));
        j = j + 1;
    }
    assert(g.take(k) =~= g.take(j as int));
    if st < n {
        r.push(String::from_str(s.substring_char(st, n)));
    }
    assert(views(r@) =~= lines(s@));
    r
}

/// The maximal runs of non-whitespace characters of `s`, in order.
pub fn split_words(s: &str) -> (r: Vec<String>)
    ensures
        views(r@) == words(s@),
{
    let cs = chars_of(s);
    let n = cs.len();
    let mut r: Vec<String> = Vec::new();
    let mut st: usize = 0;
    let mut in_word = false;
    let mut i: usize = 0;
    while i < n
        invariant
            n == cs@.len(),
            cs@ == s@,
            i <= n,
            in_word ==> st < i && i > 0 && !is_ws(cs@[i - 1]),
            !in_word ==> (i == 0 || is_ws(cs@[i - 1])),
            words(cs@.take(i as int)) =~= views(r@) + if in_word {
                seq![cs@.subrange(st as int, i as int)]
            } else {
                Seq::<Seq<char>>::empty()
            },
        decreases n - i,
    {
        assert(cs@.take(i + 1).drop_last() =~= cs@.take(i as int));
        assert(cs@.take(i + 1).last() == cs@[i as int]);
        if is_whitespace(cs[i]) {
            if in_word {
                r.push(String::from_str(s.substring_char(st, i)));
                in_word = false;
            }
        } else {
            if in_word {
                assert(cs@.take(i + 1)[i - 1] == cs@[i - 1]);
                assert(cs@.subrange(st as int, i + 1) =~= cs@.subrange(st as int, i as int).push(
                    cs@[i as int],
                ));
            } else {
                if i > 0 {
                    assert(cs@.take(i + 1)[i - 1] == cs@[i - 1]);
                }
                st = i;
                in_word = true;
                assert(cs@.subrange(st as int, i + 1) =~= seq![cs@[i as int]]);
            }
        }
        i = i + 1;
    }
    if in_word {
        r.push(String::from_str(s.substring_char(st, n)));
    }
    assert(cs@.take(n as int) =~= cs@);
    r
}

/// Whether `pat` occurs in `s` at position `i`.
fn occurs_at(s: &Vec<char>, pat: &Vec<char>, i: usize) -> (b: bool)
    requires
        i + pat@.len() <= s@.len(),
    ensures
        b == (s@.subrange(i as int, i + pat@.len()) == pat@),
{
    let m = pat.len();
    let n = s.len();
    let mut k: usize = 0;
    while k < m
        invariant
            m == pat@.len(),
            i + m <= s@.len(),
            n == s@.len(),
            k <= m,
            forall|q: int| 0 <= q < k ==> s@[i + q] == pat@[q],
        decreases m - k,
    {
        if s[i + k] != pat[k] {
            assert(s@.subrange(i as int, i + m)[k as int] != pat@[k as int]);
            return false;
        }
        k = k + 1;
    }
    assert(s@.subrange(i as int, i + m) =~= pat@);
    true
}

/// The first position where `pat` occurs in `s`.
pub fn find_seq(s: &Vec<char>, pat: &Vec<char>) -> (r: Option<usize>)
    ensures
        pos_view(r) == find(s@, pat@),
        r matches Some(i) ==> i + pat@.len() <= s@.len(),
{
    let n = s.len();
    let m = pat.len();
    let mut i: usize = 0;
    while i <= n && m <= n - i
        invariant
            n == s@.len(),
            m == pat@.len(),
            find(s@, pat@) == find_from(s@, pat@, i as nat),
        decreases n + 1 - i,
    {
        if m == 0 || occurs_at(s, pat, i) {
            return Some(i);
        }
        i = i + 1;
    }
    None
}

/// The last position of `c` in `s`.
pub fn rfind_in(s: &Vec<char>, c: char) -> (r: Option<usize>)
    ensures
        pos_view(r) == rfind_char(s@, c),
        r matches Some(i) ==> i < s@.len(),
{
    let mut j = s.len();
    assert(s@.take(j as int) =~= s@);
    while j > 0
        invariant
            j <= s@.len(),
            rfind_char(s@, c) == rfind_char(s@.take(j as int), c),
        decreases j,
    {
        assert(s@.take(j as int).drop_last() =~= s@.take(j - 1));
        if s[j - 1] == c {
            return Some(j - 1);
        }
        j = j - 1;
    }
    None
}

/// The characters `v[a..b]`.
pub fn slice_chars(v: &Vec<char>, a: usize, b: usize) -> (r: Vec<char>)
    requires
        a <= b <= v@.len(),
    ensures
        r@ == v@.subrange(a as int, b as int),
{
    let mut r: Vec<char> = Vec::new();
    let mut k = a;
    while k < b
        invariant
            a <= k <= b <= v@.len(),
            r@ == v@.subrange(a as int, k as int),
        decreases b - k,
    {
        r.push(v[k]);
        assert(v@.subrange(a as int, k + 1) =~= v@.subrange(a as int, k as int).push(v@[k as int]));
        k = k + 1;
    }
    r
}

} // verus!
