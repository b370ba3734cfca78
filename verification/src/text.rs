//! Plain-text helpers with the behaviour of the `str` methods that the
//! command-output parsers rely on: `trim`, `split_whitespace`, `split`,
//! `lines`, `contains` and `trim_end_matches`.
use vstd::prelude::*;

verus! {

broadcast use vstd::string::group_string_axioms;

/// Unicode `White_Space`, the set that `char::is_whitespace` tests.
pub open spec fn is_ws(c: char) -> bool {
    let u = c as u32;
    ||| 0x09 <= u <= 0x0D
    ||| u == 0x20
    ||| u == 0x85
    ||| u == 0xA0
    ||| u == 0x1680
    ||| 0x2000 <= u <= 0x200A
    ||| u == 0x2028
    ||| u == 0x2029
    ||| u == 0x202F
    ||| u == 0x205F
    ||| u == 0x3000
}

/// The views of a sequence of strings.
pub open spec fn views(v: Seq<String>) -> Seq<Seq<char>> {
    v.map_values(|x: String| x@)
}

/// An optional string, as characters.
pub open spec fn opt_view(o: Option<String>) -> Option<Seq<char>> {
    match o {
        Some(s) => Some(s@),
        None => None,
    }
}

/// An optional string slice, as characters.
pub open spec fn opt_str_view(o: Option<&str>) -> Option<Seq<char>> {
    match o {
        Some(s) => Some(s@),
        None => None,
    }
}

/// `s` without its leading whitespace.
pub open spec fn trim_start(s: Seq<char>) -> Seq<char>
    decreases s.len(),
{
    if s.len() > 0 && is_ws(s[0]) {
        trim_start(s.drop_first())
    } else {
        s
    }
}

/// `s` without its trailing whitespace.
pub open spec fn trim_end(s: Seq<char>) -> Seq<char>
    decreases s.len(),
{
    if s.len() > 0 && is_ws(s.last()) {
        trim_end(s.drop_last())
    } else {
        s
    }
}

/// `s` without leading and trailing whitespace.
pub open spec fn trim(s: Seq<char>) -> Seq<char> {
    trim_end(trim_start(s))
}

/// `s` without any trailing occurrence of `c`.
pub open spec fn strip_end(s: Seq<char>, c: char) -> Seq<char>
    decreases s.len(),
{
    if s.len() > 0 && s.last() == c {
        strip_end(s.drop_last(), c)
    } else {
        s
    }
}

/// The maximal runs of non-whitespace characters of `s`, in order.
pub open spec fn words(s: Seq<char>) -> Seq<Seq<char>>
    decreases s.len(),
{
    if s.len() == 0 {
        seq![]
    } else {
        let p = s.drop_last();
        let c = s.last();
        if is_ws(c) {
            words(p)
        } else if p.len() > 0 && !is_ws(p.last()) {
            let w = words(p);
            w.update(w.len() - 1, w.last().push(c))
        } else {
            words(p).push(seq![c])
        }
    }
}

/// The pieces of `s` between occurrences of `sep` (there is always at least one).
pub open spec fn split_on(s: Seq<char>, sep: char) -> Seq<Seq<char>>
    decreases s.len(),
{
    if s.len() == 0 {
        seq![seq![]]
    } else {
        let w = split_on(s.drop_last(), sep);
        if s.last() == sep {
            w.push(seq![])
        } else {
            w.update(w.len() - 1, w.last().push(s.last()))
        }
    }
}

/// A line that was ended by `'\n'` loses one trailing `'\r'`.
pub open spec fn strip_cr(l: Seq<char>) -> Seq<char> {
    if l.len() > 0 && l.last() == '\r' {
        l.drop_last()
    } else {
        l
    }
}

/// The lines of `s`: the pieces between `'\n'`, where each ended piece loses a
/// trailing `'\r'` and an empty last piece is no line.
pub open spec fn lines(s: Seq<char>) -> Seq<Seq<char>> {
    let p = split_on(s, '\n');
    let body = p.drop_last().map_values(|l: Seq<char>| strip_cr(l));
    if p.last().len() == 0 {
        body
    } else {
        body.push(p.last())
    }
}

/// `needle` occurs in `hay` at position `i`.
pub open spec fn occurs_at(hay: Seq<char>, needle: Seq<char>, i: int) -> bool {
    0 <= i && i + needle.len() <= hay.len() && hay.subrange(i, i + needle.len()) == needle
}

/// `needle` occurs somewhere in `hay`.
pub open spec fn contains(hay: Seq<char>, needle: Seq<char>) -> bool {
    exists|i: int| occurs_at(hay, needle, i)
}

/// The characters of `s`, in order.
pub fn chars_of(s: &str) -> (r: Vec<char>)
    ensures
        r@ == s@,
{
    let mut r: Vec<char> = Vec::new();
    for c in it: s.chars()
        invariant
            r@ == it.seq().take(it.index() as int),
            it.seq() == s@,
    {
        r.push(c);
    }
    r
}

/// The characters of `s` from `a` up to `b`, as a new string.
pub fn piece(s: &str, a: usize, b: usize) -> (r: String)
    requires
        a <= b <= s@.len(),
    ensures
        r@ == s@.subrange(a as int, b as int),
{
    s.substring_char(a, b).to_string()
}

/// `String::push`: appends `c`.
#[verifier::external_body]
pub(crate) fn push_char(s: &mut String, c: char)
    ensures
        final(s)@ == old(s)@.push(c),
{
    s.push(c)
}

/// The decimal digit `d` (below ten) as a character.
pub open spec fn digit_char(d: nat) -> char {
    (48 + d) as char
}

/// The decimal numeral of `n`, without leading zeros.
pub open spec fn decimal(n: nat) -> Seq<char>
    decreases n,
{
    if n < 10 {
        seq![digit_char(n)]
    } else {
        decimal(n / 10).push(digit_char(n % 10))
    }
}

/// Appends the decimal numeral of `n` to `s` (as `{}` formats a number).
pub fn push_decimal(s: &mut String, n: u32)
    ensures
        final(s)@ == old(s)@ + decimal(n as nat),
    decreases n,
{
    if n >= 10 {
        push_decimal(s, n / 10);
    }
    let d = (n % 10) as u8;
    let c = (48u8 + d) as char;
    push_char(s, c);
    assert(old(s)@ + decimal(n as nat) =~= if n >= 10 {
        old(s)@ + decimal((n / 10) as nat)
    } else {
        old(s)@
    }.push(digit_char((n % 10) as nat)));
}

/// `char::is_whitespace`.
pub fn is_whitespace(c: char) -> (r: bool)
    ensures
        r == is_ws(c),
{
    let u = c as u32;
    (0x09 <= u && u <= 0x0D) || u == 0x20 || u == 0x85 || u == 0xA0 || u == 0x1680 || (0x2000
        <= u && u <= 0x200A) || u == 0x2028 || u == 0x2029 || u == 0x202F || u == 0x205F || u
        == 0x3000
}

/// Whether two strings hold the same characters.
pub fn same_text(a: &str, b: &str) -> (r: bool)
    ensures
        r == (a@ == b@),
{
    let x = chars_of(a);
    let y = chars_of(b);
    if x.len() != y.len() {
        return false;
    }
    let mut i: usize = 0;
    while i < x.len()
        invariant
            x@ == a@,
            y@ == b@,
            x.len() == y.len(),
            i <= x.len(),
            forall|j: int| 0 <= j < i ==> x@[j] == y@[j],
        decreases x.len() - i,
    {
        if x[i] != y[i] {
            return false;
        }
        i = i + 1;
    }
    assert(x@ =~= y@);
    true
}

/// `str::trim`: `s` without leading and trailing whitespace.
pub fn trim_text(s: &str) -> (r: String)
    ensures
        r@ == trim(s@),
{
    let cs = chars_of(s);
    let n = cs.len();
    let mut a: usize = 0;
    assert(s@.skip(0) =~= s@);
    while a < n && is_whitespace(cs[a])
        invariant
            cs@ == s@,
            n == s@.len(),
            a <= n,
            trim_start(s@) == trim_start(s@.skip(a as int)),
        decreases n - a,
    {
        assert(s@.skip(a as int).drop_first() =~= s@.skip(a + 1));
        a = a + 1;
    }
    let ghost t = s@.skip(a as int);
    assert(trim_start(s@) == t);
    let mut b: usize = n;
    assert(t.take((b - a) as int) =~= t);
    while b > a && is_whitespace(cs[b - 1])
        invariant
            cs@ == s@,
            n == s@.len(),
            a <= b <= n,
            t == s@.skip(a as int),
            trim_end(t) == trim_end(t.take(b - a)),
        decreases b,
    {
        assert(t.take(b - a).drop_last() =~= t.take(b - 1 - a));
        b = b - 1;
    }
    assert(t.take(b - a) =~= s@.subrange(a as int, b as int));
    piece(s, a, b)
}

/// `str::trim_end_matches` with a single character: `s` without any
/// trailing occurrence of `c`.
pub fn strip_trailing(s: &str, c: char) -> (r: String)
    ensures
        r@ == strip_end(s@, c),
{
    let cs = chars_of(s);
    let mut b: usize = cs.len();
    assert(s@.take(b as int) =~= s@);
    while b > 0 && cs[b - 1] == c
        invariant
            cs@ == s@,
            b <= s@.len(),
            strip_end(s@, c) == strip_end(s@.take(b as int), c),
        decreases b,
    {
        assert(s@.take(b as int).drop_last() =~= s@.take(b - 1));
        b = b - 1;
    }
    piece(s, 0, b)
}

/// `str::split_whitespace`: the maximal runs of non-whitespace characters.
pub fn split_whitespace(s: &str) -> (r: Vec<String>)
    ensures
        views(r@) == words(s@),
{
    let cs = chars_of(s);
    let n = cs.len();
    let mut out: Vec<String> = Vec::new();
    let mut start: usize = 0;
    let mut in_run = false;
    let mut i: usize = 0;
    assert(s@.take(0) =~= seq![]);
    while i < n
        invariant
            cs@ == s@,
            n == s@.len(),
            start <= i <= n,
            in_run <==> (i > 0 && !is_ws(s@[i - 1])),
            in_run ==> start < i,
            views(out@) + (if in_run {
                seq![s@.subrange(start as int, i as int)]
            } else {
                Seq::<Seq<char>>::empty()
            }) == words(s@.take(i as int)),
        decreases n - i,
    {
        let c = cs[i];
        let ghost p = s@.take(i as int);
        let ghost q = s@.take(i + 1);
        assert(q.drop_last() =~= p);
        assert(q.last() == c);
        if is_whitespace(c) {
            if in_run {
                let w = piece(s, start, i);
                let ghost before = views(out@);
                out.push(w);
                assert(views(out@) =~= before + seq![s@.subrange(start as int, i as int)]);
            }
            in_run = false;
            assert(views(out@) + Seq::<Seq<char>>::empty() =~= views(out@));
        } else if in_run {
            assert(s@.subrange(start as int, i as int).push(c) =~= s@.subrange(start as int, i + 1));
            let ghost w = views(out@) + seq![s@.subrange(start as int, i as int)];
            assert(w.update(w.len() - 1, w.last().push(c)) =~= views(out@) + seq![
                s@.subrange(start as int, i + 1),
            ]);
        } else {
            assert(views(out@) + Seq::<Seq<char>>::empty() =~= views(out@));
            assert(seq![c] =~= s@.subrange(i as int, i + 1));
            assert(views(out@).push(seq![c]) =~= views(out@) + seq![
                s@.subrange(i as int, i + 1),
            ]);
            start = i;
            in_run = true;
        }
        i = i + 1;
    }
    assert(s@.take(n as int) =~= s@);
    if in_run {
        let w = piece(s, start, n);
        let ghost before = views(out@);
        out.push(w);
        assert(views(out@) =~= before + seq![s@.subrange(start as int, n as int)]);
    } else {
        assert(views(out@) + Seq::<Seq<char>>::empty() =~= views(out@));
    }
    out
}

/// `str::split` on a single character: the pieces between occurrences of `sep`.
pub fn split_char(s: &str, sep: char) -> (r: Vec<String>)
    ensures
        views(r@) == split_on(s@, sep),
{
    let cs = chars_of(s);
    let n = cs.len();
    let mut out: Vec<String> = Vec::new();
    let mut start: usize = 0;
    let mut i: usize = 0;
    assert(s@.take(0) =~= seq![]);
    assert(views(out@).push(s@.subrange(0, 0)) =~= seq![seq![]]);
    while i < n
        invariant
            cs@ == s@,
            n == s@.len(),
            start <= i <= n,
            views(out@).push(s@.subrange(start as int, i as int)) == split_on(
                s@.take(i as int),
                sep,
            ),
        decreases n - i,
    {
        let c = cs[i];
        let ghost p = s@.take(i as int);
        let ghost q = s@.take(i + 1);
        assert(q.drop_last() =~= p);
        assert(q.last() == c);
        if c == sep {
            let w = piece(s, start, i);
            let ghost before = views(out@);
            out.push(w);
            assert(views(out@) =~= before.push(s@.subrange(start as int, i as int)));
            assert(s@.subrange(i + 1, i + 1) =~= Seq::<char>::empty());
            assert(views(out@).push(s@.subrange(i + 1, i + 1)) =~= split_on(p, sep).push(
                seq![],
            ));
            start = i + 1;
        } else {
            assert(s@.subrange(start as int, i as int).push(c) =~= s@.subrange(start as int, i + 1));
            let ghost w = views(out@).push(s@.subrange(start as int, i as int));
            assert(w.update(w.len() - 1, w.last().push(c)) =~= views(out@).push(
                s@.subrange(start as int, i + 1),
            ));
        }
        i = i + 1;
    }
    assert(s@.take(n as int) =~= s@);
    let w = piece(s, start, n);
    let ghost before = views(out@);
    out.push(w);
    assert(views(out@) =~= before.push(s@.subrange(start as int, n as int)));
    out
}

/// `str::lines`: the lines of `s`, without their `"\n"` or `"\r\n"` endings.
pub fn split_lines(s: &str) -> (r: Vec<String>)
    ensures
        views(r@) == lines(s@),
{
    let cs = chars_of(s);
    let n = cs.len();
    let mut out: Vec<String> = Vec::new();
    let mut start: usize = 0;
    let mut i: usize = 0;
    assert(s@.take(0) =~= seq![]);
    assert(split_on(s@.take(0), '\n').drop_last().map_values(|l: Seq<char>| strip_cr(l))
        =~= views(out@));
    while i < n
        invariant
            cs@ == s@,
            n == s@.len(),
            start <= i <= n,
            split_on(s@.take(i as int), '\n').len() >= 1,
            split_on(s@.take(i as int), '\n').last() == s@.subrange(start as int, i as int),
            views(out@) == split_on(s@.take(i as int), '\n').drop_last().map_values(
                |l: Seq<char>| strip_cr(l),
            ),
        decreases n - i,
    {
        let c = cs[i];
        let ghost p = s@.take(i as int);
        let ghost q = s@.take(i + 1);
        let ghost sp = split_on(p, '\n');
        assert(q.drop_last() =~= p);
        assert(q.last() == c);
        if c == '\n' {
            let ghost cur = s@.subrange(start as int, i as int);
            let end = if i > start && cs[i - 1] == '\r' {
                i - 1
            } else {
                i
            };
            assert(s@.subrange(start as int, end as int) =~= strip_cr(cur));
            let w = piece(s, start, end);
            let ghost before = views(out@);
            out.push(w);
            assert(views(out@) =~= before.push(strip_cr(cur)));
            assert(sp.push(seq![]).drop_last() =~= sp);
            assert(sp =~= sp.drop_last().push(cur));
            assert(views(out@) =~= sp.map_values(|l: Seq<char>| strip_cr(l)));
            assert(sp.push(seq![]).last() =~= s@.subrange(i + 1, i + 1));
            start = i + 1;
        } else {
            assert(s@.subrange(start as int, i as int).push(c) =~= s@.subrange(start as int, i + 1));
            let ghost nw = sp.update(sp.len() - 1, sp.last().push(c));
            assert(nw.drop_last() =~= sp.drop_last());
            assert(nw.last() =~= s@.subrange(start as int, i + 1));
        }
        i = i + 1;
    }
    assert(s@.take(n as int) =~= s@);
    if start < n {
        let w = piece(s, start, n);
        let ghost before = views(out@);
        out.push(w);
        assert(views(out@) =~= before.push(s@.subrange(start as int, n as int)));
    }
    out
}

/// `str::contains` with a string pattern: whether `needle` occurs in `hay`.
pub fn contains_text(hay: &str, needle: &str) -> (r: bool)
    ensures
        r == contains(hay@, needle@),
{
    let h = chars_of(hay);
    let nd = chars_of(needle);
    let n = h.len();
    let m = nd.len();
    if m > n {
        assert forall|i: int| !occurs_at(hay@, needle@, i) by {}
        return false;
    }
    let mut i: usize = 0;
    while i <= n - m
        invariant
            h@ == hay@,
            nd@ == needle@,
            n == hay@.len(),
            m == needle@.len(),
            m <= n,
            i <= n - m + 1,
            forall|k: int| 0 <= k < i ==> !occurs_at(hay@, needle@, k),
        decreases n - m + 1 - i,
    {
        let mut j: usize = 0;
        while j < m && h[i + j] == nd[j]
            invariant
                h@ == hay@,
                nd@ == needle@,
                n == hay@.len(),
                m == needle@.len(),
                i + m <= n,
                j <= m,
                forall|k: int| 0 <= k < j ==> hay@[i + k] == needle@[k],
            decreases m - j,
        {
            j = j + 1;
        }
        if j == m {
            assert(hay@.subrange(i as int, i + m) =~= needle@);
            assert(occurs_at(hay@, needle@, i as int));
            return true;
        }
        assert(hay@.subrange(i as int, i + m)[j as int] != needle@[j as int]);
        i = i + 1;
    }
    assert forall|k: int| !occurs_at(hay@, needle@, k) by {
        if 0 <= k < i {
        }
    }
    false
}

} // verus!
