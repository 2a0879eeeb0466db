//! Character classes and the small string predicates that the rules on key
//! material are stated in.

use vstd::prelude::*;

verus! {

/// A hexadecimal digit, in either case.
pub open spec fn is_hex_digit(c: char) -> bool {
    ('0' <= c && c <= '9') || ('a' <= c && c <= 'f') || ('A' <= c && c <= 'F')
}

/// Every character of `s` is a hexadecimal digit.
pub open spec fn is_hex(s: Seq<char>) -> bool {
    forall|i: int| 0 <= i < s.len() ==> is_hex_digit(#[trigger] s[i])
}

/// Tells whether `c` is a hexadecimal digit.
pub fn hex_digit(c: char) -> (r: bool)
    ensures
        r == is_hex_digit(c),
{
    (c >= '0' && c <= '9') || (c >= 'a' && c <= 'f') || (c >= 'A' && c <= 'F')
}

/// Tells whether `s` is made of hexadecimal digits alone.
pub fn all_hex(s: &str) -> (r: bool)
    ensures
        r == is_hex(s@),
{
    let n: usize = s.unicode_len();
    let mut i: usize = 0;
    while i < n
        invariant
            n == s@.len(),
            i <= n,
            forall|j: int| 0 <= j < i ==> is_hex_digit(#[trigger] s@[j]),
        decreases n - i,
    {
        if !hex_digit(s.get_char(i)) {
            return false;
        }
        i += 1;
    }
    true
}

/// White space as Unicode defines it: the characters that `char::is_whitespace`
/// accepts.
pub open spec fn is_space(c: char) -> bool {
    ('\u{9}' <= c && c <= '\u{d}') || c == ' ' || c == '\u{85}' || c == '\u{a0}' || c
        == '\u{1680}' || ('\u{2000}' <= c && c <= '\u{200a}') || c == '\u{2028}' || c
        == '\u{2029}' || c == '\u{202f}' || c == '\u{205f}' || c == '\u{3000}'
}

/// `s` is empty or holds white space alone.
pub open spec fn is_blank(s: Seq<char>) -> bool {
    forall|i: int| 0 <= i < s.len() ==> is_space(#[trigger] s[i])
}

/// Tells whether `c` is white space.
pub fn space(c: char) -> (r: bool)
    ensures
        r == is_space(c),
{
    (c >= '\u{9}' && c <= '\u{d}') || c == ' ' || c == '\u{85}' || c == '\u{a0}' || c
        == '\u{1680}' || (c >= '\u{2000}' && c <= '\u{200a}') || c == '\u{2028}' || c
        == '\u{2029}' || c == '\u{202f}' || c == '\u{205f}' || c == '\u{3000}'
}

/// Tells whether `s` is empty or holds white space alone.
pub fn blank(s: &str) -> (r: bool)
    ensures
        r == is_blank(s@),
{
    let n: usize = s.unicode_len();
    let mut i: usize = 0;
    while i < n
        invariant
            n == s@.len(),
            i <= n,
            forall|j: int| 0 <= j < i ==> is_space(#[trigger] s@[j]),
        decreases n - i,
    {
        if !space(s.get_char(i)) {
            return false;
        }
        i += 1;
    }
    true
}

/// The characters of `s`, one by one.
pub fn chars_of(s: &str) -> (v: Vec<char>)
    ensures
        v@ == s@,
{
    let n: usize = s.unicode_len();
    let mut v: Vec<char> = Vec::new();
    let mut i: usize = 0;
    while i < n
        invariant
            n == s@.len(),
            i <= n,
            v@ == s@.subrange(0, i as int),
        decreases n - i,
    {
        v.push(s.get_char(i));
        i += 1;
        assert(v@ =~= s@.subrange(0, i as int));
    }
    assert(s@.subrange(0, n as int) =~= s@);
    v
}

/// `needle` stands in `hay` from position `at` on.
pub open spec fn occurs_at(hay: Seq<char>, needle: Seq<char>, at: int) -> bool {
    &&& 0 <= at
    &&& at + needle.len() <= hay.len()
    &&& forall|k: int| 0 <= k < needle.len() ==> hay[at + k] == #[trigger] needle[k]
}

/// `needle` stands somewhere in `hay` as one unbroken run. The empty text
/// stands in every text.
pub open spec fn occurs_in(hay: Seq<char>, needle: Seq<char>) -> bool {
    exists|at: int| occurs_at(hay, needle, at)
}

/// Tells whether `needle` stands in `hay` from position `at` on.
fn matches_at(hay: &Vec<char>, needle: &Vec<char>, at: usize) -> (r: bool)
    requires
        at + needle.len() <= hay.len(),
    ensures
        r == occurs_at(hay@, needle@, at as int),
{
    let m: usize = needle.len();
    let mut k: usize = 0;
    while k < m
        invariant
            m == needle.len(),
            k <= m,
            at + m <= hay.len(),
            forall|j: int| 0 <= j < k ==> hay@[at + j] == #[trigger] needle@[j],
        decreases m - k,
    {
        if hay[at + k] != needle[k] {
            return false;
        }
        k += 1;
    }
    true
}

/// Tells whether `needle` stands somewhere in `hay` as one unbroken run.
pub fn contains(hay: &str, needle: &str) -> (r: bool)
    ensures
        r == occurs_in(hay@, needle@),
{
    let h: Vec<char> = chars_of(hay);
    let n: Vec<char> = chars_of(needle);
    if n.len() > h.len() {
        return false;
    }
    let last: usize = h.len() - n.len();
    let mut at: usize = 0;
    while at <= last
        invariant
            h@ == hay@,
            n@ == needle@,
            n.len() <= h.len(),
            last == h.len() - n.len(),
            at <= last + 1,
            forall|j: int| 0 <= j < at ==> !occurs_at(hay@, needle@, j),
        decreases last + 1 - at,
    {
        if matches_at(&h, &n, at) {
            return true;
        }
        at += 1;
    }
    false
}

/// A run of `n` zero digits.
pub open spec fn zeros(n: nat) -> Seq<char> {
    Seq::new(n, |i: int| '0')
}

/// `s` with zero digits in front of it, as many as it takes to reach `width`
/// characters; `s` itself where it is that long already.
pub open spec fn zero_padded(s: Seq<char>, width: nat) -> Seq<char> {
    if s.len() >= width {
        s
    } else {
        zeros((width - s.len()) as nat) + s
    }
}

/// Pads `s` on the left with zero digits to `width` characters.
pub fn pad_zeros(s: &str, width: usize) -> (r: String)
    ensures
        r@ == zero_padded(s@, width as nat),
{
    let n: usize = s.unicode_len();
    let mut out: String = String::new();
    if n < width {
        let missing: usize = width - n;
        let mut i: usize = 0;
        while i < missing
            invariant
                i <= missing,
                out@ == zeros(i as nat),
            decreases missing - i,
        {
            proof {
                reveal_strlit("0");
            }
            out.append("0");
            i += 1;
            assert(out@ =~= zeros(i as nat));
        }
    }
    out.append(s);
    assert(out@ =~= zero_padded(s@, width as nat));
    out
}

/// `s` without the white space that it begins with.
pub open spec fn skip_front(s: Seq<char>) -> Seq<char>
    decreases s.len(),
{
    if s.len() > 0 && is_space(s[0]) {
        skip_front(s.subrange(1, s.len() as int))
    } else {
        s
    }
}

/// `s` without the white space that it ends with.
pub open spec fn skip_back(s: Seq<char>) -> Seq<char>
    decreases s.len(),
{
    if s.len() > 0 && is_space(s[s.len() - 1]) {
        skip_back(s.subrange(0, s.len() - 1))
    } else {
        s
    }
}

/// `s` without the white space at its two ends.
pub open spec fn trimmed(s: Seq<char>) -> Seq<char> {
    skip_back(skip_front(s))
}

/// Finds where `s` begins once the white space in front is passed.
fn front_end(s: &str) -> (a: usize)
    ensures
        a <= s@.len(),
        skip_front(s@) == s@.subrange(a as int, s@.len() as int),
{
    let n: usize = s.unicode_len();
    let mut a: usize = 0;
    assert(s@.subrange(0, n as int) =~= s@);
    while a < n
        invariant
            n == s@.len(),
            a <= n,
            skip_front(s@) == skip_front(s@.subrange(a as int, n as int)),
        decreases n - a,
    {
        if !space(s.get_char(a)) {
            return a;
        }
        assert(s@.subrange(a as int, n as int).subrange(1, n - a) =~= s@.subrange(
            a + 1,
            n as int,
        ));
        a += 1;
    }
    a
}

/// Finds where `s` ends, from position `a` on, before its white space at
/// the end.
fn back_end(s: &str, a: usize) -> (b: usize)
    requires
        a <= s@.len(),
    ensures
        a <= b <= s@.len(),
        skip_back(s@.subrange(a as int, s@.len() as int)) == s@.subrange(a as int, b as int),
{
    let n: usize = s.unicode_len();
    let mut b: usize = n;
    while b > a
        invariant
            n == s@.len(),
            a <= b <= n,
            skip_back(s@.subrange(a as int, n as int)) == skip_back(
                s@.subrange(a as int, b as int),
            ),
        decreases b - a,
    {
        if !space(s.get_char(b - 1)) {
            return b;
        }
        assert(s@.subrange(a as int, b as int).subrange(0, b - a - 1) =~= s@.subrange(
            a as int,
            b - 1,
        ));
        b -= 1;
    }
    b
}

/// Cuts the white space off the two ends of `s`.
pub fn trim(s: &str) -> (r: &str)
    ensures
        r@ == trimmed(s@),
{
    let a: usize = front_end(s);
    let b: usize = back_end(s, a);
    s.substring_char(a, b)
}

/// What `skip_front` leaves is the end of `s`, begins with no white space,
/// and is empty exactly where `s` is blank.
pub proof fn lemma_skip_front(s: Seq<char>)
    ensures
        skip_front(s).len() <= s.len(),
        skip_front(s) == s.subrange(s.len() - skip_front(s).len(), s.len() as int),
        skip_front(s).len() > 0 ==> !is_space(skip_front(s)[0]),
        skip_front(s).len() == 0 <==> is_blank(s),
    decreases s.len(),
{
    if s.len() > 0 && is_space(s[0]) {
        let rest = s.subrange(1, s.len() as int);
        lemma_skip_front(rest);
        let k = skip_front(rest);
        assert(k =~= s.subrange(s.len() - k.len(), s.len() as int));
        if k.len() == 0 {
            assert forall|i: int| 0 <= i < s.len() implies is_space(#[trigger] s[i]) by {
                if i > 0 {
                    assert(s[i] == rest[i - 1]);
                }
            }
        } else {
            assert(!is_space(rest[rest.len() - k.len()]));
            assert(rest[rest.len() - k.len()] == s[s.len() - k.len()]);
        }
    } else {
        assert(s =~= s.subrange(0, s.len() as int));
        if s.len() > 0 {
            assert(!is_space(s[0]));
        }
    }
}

/// What `skip_back` leaves is the beginning of `s`, and is empty only where
/// `s` is blank.
pub proof fn lemma_skip_back(s: Seq<char>)
    ensures
        skip_back(s).len() <= s.len(),
        skip_back(s) == s.subrange(0, skip_back(s).len() as int),
        skip_back(s).len() == 0 <==> is_blank(s),
    decreases s.len(),
{
    if s.len() > 0 && is_space(s[s.len() - 1]) {
        let rest = s.subrange(0, s.len() - 1);
        lemma_skip_back(rest);
        let k = skip_back(rest);
        assert(k =~= s.subrange(0, k.len() as int));
        if k.len() == 0 {
            assert forall|i: int| 0 <= i < s.len() implies is_space(#[trigger] s[i]) by {
                if i < s.len() - 1 {
                    assert(s[i] == rest[i]);
                }
            }
        } else {
            assert(!is_space(rest[choose|i: int| 0 <= i < rest.len() && !is_space(rest[i])]));
        }
    } else {
        assert(s =~= s.subrange(0, s.len() as int));
        if s.len() > 0 {
            assert(!is_space(s[s.len() - 1]));
        }
    }
}

/// A trimmed text is one unbroken run of the text that it was cut from, and
/// it is empty exactly where that text is blank.
pub proof fn lemma_trimmed(s: Seq<char>)
    ensures
        occurs_in(s, trimmed(s)),
        trimmed(s).len() == 0 <==> is_blank(s),
{
    lemma_skip_front(s);
    let f = skip_front(s);
    lemma_skip_back(f);
    let t = trimmed(s);
    let at = s.len() - f.len();
    assert(occurs_at(s, t, at)) by {
        assert forall|k: int| 0 <= k < t.len() implies s[at + k] == #[trigger] t[k] by {
            assert(t[k] == f[k]);
            assert(f[k] == s[at + k]);
        }
    }
    if f.len() > 0 {
        assert(!is_space(f[0]));
        assert(!is_blank(f));
    }
}

} // verus!
