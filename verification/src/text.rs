//! Text primitives on sequences of characters: searching, trimming, splitting
//! and joining, each stated over the `Seq<char>` view of a string.

use vstd::prelude::*;

verus! {

/// Unicode white space, the characters that trimming removes.
pub open spec fn is_space(c: char) -> bool {
    let n = c as u32;
    n == 0x20 || (0x09 <= n && n <= 0x0d) || n == 0x85 || n == 0xa0 || n == 0x1680 || (0x2000 <= n
        && n <= 0x200a) || n == 0x2028 || n == 0x2029 || n == 0x202f || n == 0x205f || n == 0x3000
}

/// `s` without its leading white space.
pub open spec fn trim_start(s: Seq<char>) -> Seq<char>
    decreases s.len(),
{
    if s.len() > 0 && is_space(s[0]) {
        trim_start(s.drop_first())
    } else {
        s
    }
}

/// `s` without its trailing white space.
pub open spec fn trim_end(s: Seq<char>) -> Seq<char>
    decreases s.len(),
{
    if s.len() > 0 && is_space(s.last()) {
        trim_end(s.drop_last())
    } else {
        s
    }
}

/// `s` without leading and trailing white space.
pub open spec fn trimmed(s: Seq<char>) -> Seq<char> {
    trim_end(trim_start(s))
}

/// `s` without one trailing carriage return.
pub open spec fn without_cr(s: Seq<char>) -> Seq<char> {
    if s.len() > 0 && s.last() == '\r' {
        s.drop_last()
    } else {
        s
    }
}

/// The position of the first `c` in `s`, or the length of `s` if there is none.
pub open spec fn first_index(s: Seq<char>, c: char) -> int
    decreases s.len(),
{
    if s.len() == 0 || s[0] == c {
        0
    } else {
        1 + first_index(s.drop_first(), c)
    }
}

/// The lines of `s`: it is cut after every line feed, a carriage return just
/// before the line feed goes too, and a last piece without line feed is a
/// line of its own unless it is empty.
pub open spec fn lines_of(s: Seq<char>) -> Seq<Seq<char>>
    decreases s.len(),
{
    if s.len() == 0 {
        Seq::empty()
    } else {
        let i = first_index(s, '\n');
        if 0 <= i < s.len() {
            seq![without_cr(s.take(i))] + lines_of(s.skip(i + 1))
        } else {
            seq![s]
        }
    }
}

/// `s` with every leading copy of `prefix` removed.
pub open spec fn without_prefixes(s: Seq<char>, prefix: Seq<char>) -> Seq<char>
    decreases s.len(),
{
    if prefix.len() > 0 && prefix.is_prefix_of(s) {
        without_prefixes(s.skip(prefix.len() as int), prefix)
    } else {
        s
    }
}

/// `s` with one trailing copy of `suffix` removed, if it ends with one.
pub open spec fn without_suffix(s: Seq<char>, suffix: Seq<char>) -> Seq<char> {
    if suffix.is_suffix_of(s) {
        s.take(s.len() - suffix.len())
    } else {
        s
    }
}

/// The bytes that encode `s`.
pub open spec fn bytes_of(s: Seq<char>) -> Seq<u8> {
    vstd::utf8::encode_utf8(s)
}

/// The digits of `n` in base ten, most significant first.
pub open spec fn decimal_of(n: nat) -> Seq<char>
    decreases n,
{
    if n < 10 {
        seq![digit_of(n)]
    } else {
        decimal_of(n / 10).push(digit_of(n % 10))
    }
}

/// The character of one decimal digit.
pub open spec fn digit_of(d: nat) -> char {
    if d == 0 {
        '0'
    } else if d == 1 {
        '1'
    } else if d == 2 {
        '2'
    } else if d == 3 {
        '3'
    } else if d == 4 {
        '4'
    } else if d == 5 {
        '5'
    } else if d == 6 {
        '6'
    } else if d == 7 {
        '7'
    } else if d == 8 {
        '8'
    } else {
        '9'
    }
}

/// A path made of `base` and one more component, with a single separator
/// between them unless `base` is empty or already ends with one.
pub open spec fn joined_path(base: Seq<char>, component: Seq<char>) -> Seq<char> {
    if base.len() == 0 || base.last() == '/' {
        base + component
    } else {
        base + seq!['/'] + component
    }
}

/// The first index lies in `s` or at its end, holds `c` where it lies in
/// `s`, and no position before it holds `c`.
pub proof fn lemma_first_index_bounds(s: Seq<char>, c: char)
    ensures
        0 <= first_index(s, c) <= s.len(),
        first_index(s, c) < s.len() ==> s[first_index(s, c)] == c,
        forall|j: int| 0 <= j < first_index(s, c) ==> s[j] != c,
    decreases s.len(),
{
    if s.len() == 0 || s[0] == c {
    } else {
        lemma_first_index_bounds(s.drop_first(), c);
        let k = first_index(s.drop_first(), c);
        assert forall|j: int| 0 <= j < first_index(s, c) implies s[j] != c by {
            if j > 0 {
                assert(s[j] == s.drop_first()[j - 1]);
            }
        }
        if first_index(s, c) < s.len() {
            assert(s[first_index(s, c)] == s.drop_first()[k]);
        }
    }
}

/// A position that holds `c` with no `c` before it is the first index.
pub proof fn lemma_first_index_is(s: Seq<char>, c: char, i: int)
    requires
        0 <= i <= s.len(),
        i < s.len() ==> s[i] == c,
        forall|j: int| 0 <= j < i ==> s[j] != c,
    ensures
        first_index(s, c) == i,
{
    lemma_first_index_bounds(s, c);
    let k = first_index(s, c);
    if k < i {
        assert(s[k] != c);
    }
}

/// Whether `c` is white space.
pub fn is_space_char(c: char) -> (r: bool)
    ensures
        r == is_space(c),
{
    let n: u32 = c as u32;
    n == 0x20 || (0x09 <= n && n <= 0x0d) || n == 0x85 || n == 0xa0 || n == 0x1680 || (0x2000 <= n
        && n <= 0x200a) || n == 0x2028 || n == 0x2029 || n == 0x202f || n == 0x205f || n == 0x3000
}

/// The characters of `s`, in order.
pub fn to_chars(s: &str) -> (v: Vec<char>)
    ensures
        v@ == s@,
{
    let mut v: Vec<char> = Vec::new();
    for c in it: s.chars()
        invariant
            it.seq() == s@,
            v@ == it.seq().take(it.index()),
    {
        v.push(c);
    }
    v
}

/// Whether two strings hold the same characters.
pub fn equal(a: &str, b: &str) -> (r: bool)
    ensures
        r == (a@ == b@),
{
    let x = to_chars(a);
    let y = to_chars(b);
    if x.len() != y.len() {
        return false;
    }
    let mut i: usize = 0;
    while i < x.len()
        invariant
            x@ == a@,
            y@ == b@,
            x.len() == y.len(),
            i <= x.len(),
            x@.take(i as int) == y@.take(i as int),
        decreases x.len() - i,
    {
        if x[i] != y[i] {
            assert(a@[i as int] != b@[i as int]);
            return false;
        }
        assert(x@.take(i + 1) == x@.take(i as int).push(x@[i as int]));
        assert(y@.take(i + 1) == y@.take(i as int).push(y@[i as int]));
        i += 1;
    }
    assert(x@ == x@.take(x.len() as int));
    assert(y@ == y@.take(y.len() as int));
    true
}

/// The position of the first `c` among `s`, or the length of `s`.
pub fn find(s: &Vec<char>, c: char) -> (i: usize)
    ensures
        i == first_index(s@, c),
        i <= s.len(),
{
    let mut i: usize = 0;
    while i < s.len() && s[i] != c
        invariant
            i <= s.len(),
            forall|j: int| 0 <= j < i ==> s@[j] != c,
        decreases s.len() - i,
    {
        i += 1;
    }
    proof {
        lemma_first_index_is(s@, c, i as int);
    }
    i
}

/// Cuts `s` at its first `c`: what stands before it and what stands after.
/// `None` where `s` holds no `c`.
pub fn split_once<'a>(s: &'a str, c: char) -> (r: Option<(&'a str, &'a str)>)
    ensures
        r is None <==> !s@.contains(c),
        r matches Some((a, b)) ==> a@ == s@.take(first_index(s@, c)) && b@ == s@.skip(
            first_index(s@, c) + 1,
        ),
{
    let cs = to_chars(s);
    let i = find(&cs, c);
    proof {
        lemma_first_index_bounds(s@, c);
    }
    if i < cs.len() {
        let a = s.substring_char(0, i);
        let b = s.substring_char(i + 1, cs.len());
        assert(s@.contains(c));
        Some((a, b))
    } else {
        None
    }
}

/// Whether `s` begins with `prefix`.
pub fn starts_with(s: &Vec<char>, from: usize, prefix: &Vec<char>) -> (r: bool)
    requires
        from <= s.len(),
    ensures
        r == prefix@.is_prefix_of(s@.skip(from as int)),
{
    if prefix.len() > s.len() - from {
        return false;
    }
    let mut i: usize = 0;
    while i < prefix.len()
        invariant
            from <= s.len(),
            prefix.len() <= s.len() - from,
            i <= prefix.len(),
            forall|j: int| 0 <= j < i ==> prefix@[j] == s@[from + j],
        decreases prefix.len() - i,
    {
        if prefix[i] != s[from + i] {
            assert(s@.skip(from as int)[i as int] == s@[from + i]);
            return false;
        }
        i += 1;
    }
    assert(prefix@ =~= s@.skip(from as int).subrange(0, prefix@.len() as int));
    true
}

/// Whether `s` ends with `suffix`.
pub fn ends_with(s: &Vec<char>, suffix: &Vec<char>) -> (r: bool)
    ensures
        r == suffix@.is_suffix_of(s@),
{
    if suffix.len() > s.len() {
        return false;
    }
    let from = s.len() - suffix.len();
    let r = starts_with(s, from, suffix);
    proof {
        let t = s@.skip(from as int);
        assert(t.len() == suffix@.len());
        assert(t =~= s@.subrange(s@.len() - suffix@.len(), s@.len() as int));
        if r {
            assert(suffix@ =~= t.subrange(0, suffix@.len() as int));
            assert(t.subrange(0, t.len() as int) =~= t);
        } else {
            if suffix@.is_suffix_of(s@) {
                assert(suffix@ =~= t.subrange(0, suffix@.len() as int));
            }
        }
    }
    r
}

/// `s` with one trailing `suffix` removed, if it ends with one.
pub fn strip_suffix<'a>(s: &'a str, suffix: &str) -> (r: &'a str)
    ensures
        r@ == without_suffix(s@, suffix@),
{
    let cs = to_chars(s);
    let xs = to_chars(suffix);
    if ends_with(&cs, &xs) {
        s.substring_char(0, cs.len() - xs.len())
    } else {
        s
    }
}

/// `s` with every leading copy of `prefix` removed.
pub fn strip_prefixes<'a>(s: &'a str, prefix: &str) -> (r: &'a str)
    ensures
        r@ == without_prefixes(s@, prefix@),
{
    let cs = to_chars(s);
    let ps = to_chars(prefix);
    if ps.len() == 0 {
        return s;
    }
    let mut from: usize = 0;
    assert(s@.skip(0) =~= s@);
    while starts_with(&cs, from, &ps)
        invariant
            cs@ == s@,
            ps@ == prefix@,
            ps.len() > 0,
            from <= cs.len(),
            without_prefixes(s@, prefix@) == without_prefixes(s@.skip(from as int), prefix@),
        decreases cs.len() - from,
    {
        proof {
            let t = s@.skip(from as int);
            assert(t.skip(ps@.len() as int) =~= s@.skip(from + ps@.len()));
        }
        from = from + ps.len();
    }
    s.substring_char(from, cs.len())
}

/// `s` without leading and trailing white space.
pub fn trim<'a>(s: &'a str) -> (r: &'a str)
    ensures
        r@ == trimmed(s@),
{
    let cs = to_chars(s);
    let mut a: usize = 0;
    assert(s@.skip(0) =~= s@);
    while a < cs.len() && is_space_char(cs[a])
        invariant
            cs@ == s@,
            a <= cs.len(),
            trim_start(s@) == trim_start(s@.skip(a as int)),
        decreases cs.len() - a,
    {
        proof {
            let t = s@.skip(a as int);
            assert(t[0] == s@[a as int]);
            assert(t.drop_first() =~= s@.skip(a + 1));
        }
        a += 1;
    }
    proof {
        let t = s@.skip(a as int);
        if a < cs.len() {
            assert(t[0] == s@[a as int]);
        }
        assert(trim_start(s@) == t);
    }
    let mut b: usize = cs.len();
    while b > a && is_space_char(cs[b - 1])
        invariant
            cs@ == s@,
            a <= b <= cs.len(),
            trimmed(s@) == trim_end(s@.subrange(a as int, b as int)),
        decreases b - a,
    {
        proof {
            let t = s@.subrange(a as int, b as int);
            assert(t.last() == s@[b - 1]);
            assert(t.drop_last() =~= s@.subrange(a as int, b - 1));
        }
        b -= 1;
    }
    proof {
        let t = s@.subrange(a as int, b as int);
        if b > a {
            assert(t.last() == s@[b - 1]);
        }
        assert(trim_end(t) == t);
    }
    s.substring_char(a, b)
}

/// The lines of `s`.
pub fn lines(s: &str) -> (r: Vec<String>)
    ensures
        r.deep_view() == lines_of(s@),
{
    let cs = to_chars(s);
    let n = cs.len();
    let mut r: Vec<String> = Vec::new();
    let mut from: usize = 0;
    assert(s@.skip(0) =~= s@);
    assert(r.deep_view() =~= Seq::<Seq<char>>::empty());
    while from < n
        invariant
            cs@ == s@,
            n == cs.len(),
            from <= n,
            lines_of(s@) == r.deep_view() + lines_of(s@.skip(from as int)),
        decreases n - from,
    {
        let ghost rest = s@.skip(from as int);
        let mut i: usize = from;
        while i < n && cs[i] != '\n'
            invariant
                cs@ == s@,
                n == cs.len(),
                from <= i <= n,
                forall|j: int| from <= j < i ==> s@[j] != '\n',
            decreases n - i,
        {
            i += 1;
        }
        proof {
            assert forall|j: int| 0 <= j < i - from implies rest[j] != '\n' by {
                assert(rest[j] == s@[from + j]);
            }
            if i < n {
                assert(rest[i - from] == s@[i as int]);
            }
            lemma_first_index_is(rest, '\n', i - from);
        }
        let ghost before = r.deep_view();
        if i < n {
            let end = if i > from && cs[i - 1] == '\r' {
                i - 1
            } else {
                i
            };
            let line = s.substring_char(from, end);
            proof {
                let piece = rest.take(i - from);
                assert(piece =~= s@.subrange(from as int, i as int));
                if i > from {
                    assert(piece.last() == s@[i - 1]);
                }
                assert(without_cr(piece) =~= s@.subrange(from as int, end as int));
                assert(rest.skip(i - from + 1) =~= s@.skip(i + 1));
            }
            r.push(line.to_owned());
            proof {
                assert(r.deep_view() =~= before.push(line@));
                assert(lines_of(rest) == seq![line@] + lines_of(s@.skip(i + 1)));
                assert(lines_of(s@) =~= r.deep_view() + lines_of(s@.skip(i + 1)));
            }
            from = i + 1;
        } else {
            let line = s.substring_char(from, n);
            proof {
                assert(rest =~= s@.subrange(from as int, n as int));
                assert(s@.skip(n as int).len() == 0);
            }
            r.push(line.to_owned());
            proof {
                assert(r.deep_view() =~= before.push(line@));
                assert(lines_of(rest) == seq![rest]);
                assert(lines_of(s@.skip(n as int)) =~= Seq::<Seq<char>>::empty());
                assert(lines_of(s@) =~= r.deep_view() + lines_of(s@.skip(n as int)));
            }
            from = n;
        }
    }
    proof {
        assert(s@.skip(from as int).len() == 0);
        assert(lines_of(s@) =~= r.deep_view());
    }
    r
}

/// `a` followed by `b`.
pub fn concat(a: &str, b: &str) -> (r: String)
    ensures
        r@ == a@ + b@,
{
    let mut r = a.to_owned();
    r.append(b);
    r
}

/// `base` with one more path component.
pub fn join_path(base: &str, component: &str) -> (r: String)
    ensures
        r@ == joined_path(base@, component@),
{
    let cs = to_chars(base);
    let mut r = base.to_owned();
    if cs.len() > 0 && cs[cs.len() - 1] != '/' {
        proof {
            reveal_strlit("/");
            assert("/"@ =~= seq!['/']);
        }
        r.append("/");
    }
    r.append(component);
    r
}

/// The text of one decimal digit.
fn digit(d: u64) -> (r: &'static str)
    requires
        d < 10,
    ensures
        r@ == seq![digit_of(d as nat)],
{
    let all = "0123456789";
    proof {
        reveal_strlit("0123456789");
    }
    let r = all.substring_char(d as usize, d as usize + 1);
    assert(r@ =~= seq![digit_of(d as nat)]);
    r
}

/// `n` written in base ten.
pub fn decimal(n: u64) -> (r: String)
    ensures
        r@ == decimal_of(n as nat),
    decreases n,
{
    if n < 10 {
        digit(n).to_owned()
    } else {
        let mut r = decimal(n / 10);
        r.append(digit(n % 10));
        assert(r@ =~= decimal_of((n / 10) as nat).push(digit_of((n % 10) as nat)));
        r
    }
}

} // verus!
