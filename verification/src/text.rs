//! Small verified helpers on strings.

use vstd::prelude::*;
use vstd::string::StringSliceAdditionalSpecFns;
use vstd::utf8::encode_utf8_decode_utf8;

verus! {

/// Two character sequences with the same UTF-8 encoding are the same sequence.
pub proof fn lemma_same_bytes_same_chars(a: Seq<char>, b: Seq<char>)
    requires
        vstd::utf8::encode_utf8(a) == vstd::utf8::encode_utf8(b),
    ensures
        a == b,
{
    encode_utf8_decode_utf8(a);
    encode_utf8_decode_utf8(b);
}

/// Exact, case-sensitive equality of two strings.
pub fn str_eq(a: &str, b: &str) -> (same: bool)
    ensures
        same == (a@ == b@),
{
    let x = a.as_bytes();
    let y = b.as_bytes();
    if x.len() != y.len() {
        return false;
    }
    let n: usize = x.len();
    let mut i: usize = 0;
    while i < n
        invariant
            i <= n,
            n == x@.len(),
            n == y@.len(),
            x@ == a.spec_bytes(),
            y@ == b.spec_bytes(),
            forall|k: int| 0 <= k < i ==> x@[k] == y@[k],
        decreases n - i,
    {
        if x[i] != y[i] {
            return false;
        }
        i += 1;
    }
    proof {
        assert(x@ =~= y@);
        lemma_same_bytes_same_chars(a@, b@);
    }
    true
}

/// The characters of `s`, in order.
pub fn chars_of(s: &str) -> (v: Vec<char>)
    ensures
        v@ == s@,
{
    let mut v: Vec<char> = Vec::new();
    for c in it: s.chars()
        invariant
            v@ == it.seq().take(it.index()),
            it.seq() == s@,
    {
        v.push(c);
    }
    v
}

/// Whether `c` is white space: a character with the Unicode property `White_Space`.
pub open spec fn is_whitespace(c: char) -> bool {
    let u = c as u32;
    ||| 0x09 <= u <= 0x0D
    ||| u == 0x20
    ||| u == 0x85
    ||| u == 0xA0
    ||| u == 0x1680
    ||| 0x2000 <= u <= 0x200A
    ||| u == 0x2028
    ||| u == 0x2029
    ||| u == 0x202F
    ||| u == 0x205F
    ||| u == 0x3000
}

/// Whether `c` is white space.
pub fn char_is_whitespace(c: char) -> (b: bool)
    ensures
        b == is_whitespace(c),
{
    let u: u32 = c as u32;
    (0x09 <= u && u <= 0x0D) || u == 0x20 || u == 0x85 || u == 0xA0 || u == 0x1680 || (0x2000 <= u
        && u <= 0x200A) || u == 0x2028 || u == 0x2029 || u == 0x202F || u == 0x205F || u
        == 0x3000
}

/// `s` without the white space at its start.
pub open spec fn trim_start(s: Seq<char>) -> Seq<char>
    decreases s.len(),
{
    if s.len() > 0 && is_whitespace(s[0]) {
        trim_start(s.drop_first())
    } else {
        s
    }
}

/// `s` without the white space at its end.
pub open spec fn trim_end(s: Seq<char>) -> Seq<char>
    decreases s.len(),
{
    if s.len() > 0 && is_whitespace(s.last()) {
        trim_end(s.drop_last())
    } else {
        s
    }
}

/// `s` without the white space at its start and at its end.
pub open spec fn trim(s: Seq<char>) -> Seq<char> {
    trim_end(trim_start(s))
}

/// The position of the first `sep` in `s`, or the length of `s` if it holds none.
pub open spec fn first_sep(s: Seq<char>, sep: char) -> int
    decreases s.len(),
{
    if s.len() == 0 || s[0] == sep {
        0
    } else {
        1 + first_sep(s.drop_first(), sep)
    }
}

/// The pieces of `s` between the occurrences of `sep`. There is always at least one
/// piece, and a piece may be empty.
pub open spec fn split(s: Seq<char>, sep: char) -> Seq<Seq<char>>
    decreases s.len(),
{
    let k = first_sep(s, sep);
    if 0 <= k < s.len() {
        seq![s.take(k)] + split(s.skip(k + 1), sep)
    } else {
        seq![s]
    }
}

/// The first separator of `s` is at `k` when no earlier position holds one and `k`
/// holds one or is the end of `s`.
pub proof fn lemma_first_sep_at(s: Seq<char>, sep: char, k: int)
    requires
        0 <= k <= s.len(),
        forall|j: int| 0 <= j < k ==> s[j] != sep,
        k < s.len() ==> s[k] == sep,
    ensures
        first_sep(s, sep) == k,
    decreases s.len(),
{
    if k > 0 {
        lemma_first_sep_at(s.drop_first(), sep, k - 1);
    }
}

/// Skipping white space from the left of a range leaves what `trim_start` leaves.
pub proof fn lemma_trim_start_range(s: Seq<char>, a: int, b: int, c: int)
    requires
        0 <= a <= c <= b <= s.len(),
        forall|j: int| a <= j < c ==> is_whitespace(s[j]),
        c < b ==> !is_whitespace(s[c]),
    ensures
        trim_start(s.subrange(a, b)) == s.subrange(c, b),
    decreases c - a,
{
    if a < c {
        assert(s.subrange(a, b).drop_first() == s.subrange(a + 1, b));
        lemma_trim_start_range(s, a + 1, b, c);
    } else {
        assert(b > a ==> s.subrange(a, b)[0] == s[a]);
    }
}

/// Skipping white space from the right of a range leaves what `trim_end` leaves.
pub proof fn lemma_trim_end_range(s: Seq<char>, a: int, b: int, c: int)
    requires
        0 <= a <= c <= b <= s.len(),
        forall|j: int| c <= j < b ==> is_whitespace(s[j]),
        a < c ==> !is_whitespace(s[c - 1]),
    ensures
        trim_end(s.subrange(a, b)) == s.subrange(a, c),
    decreases b - c,
{
    if c < b {
        assert(s.subrange(a, b).drop_last() == s.subrange(a, b - 1));
        assert(s.subrange(a, b).last() == s[b - 1]);
        lemma_trim_end_range(s, a, b - 1, c);
    } else {
        assert(b > a ==> s.subrange(a, b).last() == s[b - 1]);
    }
}

/// The bounds of the range `a..b` of `v` once the white space at both of its ends is
/// left out.
pub fn trim_range(v: &Vec<char>, a: usize, b: usize) -> (r: (usize, usize))
    requires
        a <= b <= v.len(),
    ensures
        a <= r.0 <= r.1 <= b,
        v@.subrange(r.0 as int, r.1 as int) == trim(v@.subrange(a as int, b as int)),
{
    let mut lo: usize = a;
    while lo < b && char_is_whitespace(v[lo])
        invariant
            a <= lo <= b <= v.len(),
            forall|j: int| a <= j < lo ==> is_whitespace(v@[j]),
        decreases b - lo,
    {
        lo += 1;
    }
    let mut hi: usize = b;
    while lo < hi && char_is_whitespace(v[hi - 1])
        invariant
            lo <= hi <= b <= v.len(),
            forall|j: int| hi <= j < b ==> is_whitespace(v@[j]),
        decreases hi - lo,
    {
        hi -= 1;
    }
    proof {
        lemma_trim_start_range(v@, a as int, b as int, lo as int);
        lemma_trim_end_range(v@, lo as int, b as int, hi as int);
    }
    (lo, hi)
}

/// Whether the range `a..b` of `v` starts with `prefix`.
pub fn range_starts_with(v: &Vec<char>, a: usize, b: usize, prefix: &Vec<char>) -> (yes: bool)
    requires
        a <= b <= v.len(),
    ensures
        yes == prefix@.is_prefix_of(v@.subrange(a as int, b as int)),
{
    let n: usize = prefix.len();
    if n > b - a {
        return false;
    }
    let mut i: usize = 0;
    while i < n
        invariant
            i <= n,
            n == prefix.len(),
            a + n <= b <= v.len(),
            forall|k: int| 0 <= k < i ==> prefix@[k] == v@[a + k],
        decreases n - i,
    {
        if prefix[i] != v[a + i] {
            assert(v@.subrange(a as int, b as int).subrange(0, n as int)[i as int] == v@[a + i]);
            return false;
        }
        i += 1;
    }
    assert(prefix@ =~= v@.subrange(a as int, b as int).subrange(0, n as int));
    true
}

/// Whether `s` starts with `prefix`.
pub fn starts_with(s: &str, prefix: &str) -> (yes: bool)
    ensures
        yes == prefix@.is_prefix_of(s@),
{
    let v = chars_of(s);
    let p = chars_of(prefix);
    assert(v@.subrange(0, v@.len() as int) =~= v@);
    range_starts_with(&v, 0, v.len(), &p)
}

/// `s` without the white space at its start and at its end.
pub fn trim_str(s: &str) -> (t: &str)
    ensures
        t@ == trim(s@),
{
    let v = chars_of(s);
    assert(v@.subrange(0, v@.len() as int) =~= v@);
    let (a, b) = trim_range(&v, 0, v.len());
    s.substring_char(a, b)
}

/// `s` in lower case, as Unicode defines it.
pub uninterp spec fn lowercase(s: Seq<char>) -> Seq<char>;

/// Calls `str::to_lowercase` of std. The contract names the result
/// `lowercase(s)`; which characters Unicode maps to which is not stated here.
#[verifier::external_body]
pub(crate) fn to_lowercase(s: &str) -> (lower: String)
    ensures
        lower@ == lowercase(s@),
{
    s.to_lowercase()
}

} // verus!
