//! Text rules shared by the validations of every object: Unicode
//! whitespace, trimming and the length of what remains, in characters
//! or in UTF-8 bytes.

use vstd::prelude::*;
use vstd::string::*;
use vstd::utf8::*;

verus! {

/// Unicode `White_Space`, the property that `char::is_whitespace`
/// reports and that `str::trim` removes.
pub open spec fn is_white_space(c: char) -> bool {
    let u = c as u32;
    ||| 0x9 <= u <= 0xD
    ||| u == 0x20
    ||| u == 0x85
    ||| u == 0xA0
    ||| u == 0x1680
    ||| 0x2000 <= u <= 0x200A
    ||| u == 0x2028
    ||| u == 0x2029
    ||| u == 0x202F
    ||| u == 0x205F
    ||| u == 0x3000
}

/// `s` without its leading whitespace.
pub open spec fn trim_start(s: Seq<char>) -> Seq<char>
    decreases s.len(),
{
    if s.len() > 0 && is_white_space(s[0]) {
        trim_start(s.drop_first())
    } else {
        s
    }
}

/// `s` without its trailing whitespace.
pub open spec fn trim_end(s: Seq<char>) -> Seq<char>
    decreases s.len(),
{
    if s.len() > 0 && is_white_space(s.last()) {
        trim_end(s.drop_last())
    } else {
        s
    }
}

/// `s` without leading and trailing whitespace, as `str::trim` gives it.
pub open spec fn trim(s: Seq<char>) -> Seq<char> {
    trim_end(trim_start(s))
}

/// Number of bytes of the UTF-8 encoding of `s`: what `str::len` counts.
pub open spec fn utf8_len(s: Seq<char>) -> int {
    encode_utf8(s).len() as int
}

/// Number of bytes the UTF-8 encoding of `c` takes.
pub open spec fn utf8_width(c: char) -> int {
    let u = c as u32;
    if u <= 0x7F {
        1
    } else if u <= 0x7FF {
        2
    } else if u <= 0xFFFF {
        3
    } else {
        4
    }
}

/// The encoding of a concatenation is the concatenation of the encodings.
pub proof fn lemma_encode_utf8_concat(a: Seq<char>, b: Seq<char>)
    ensures
        encode_utf8(a + b) == encode_utf8(a) + encode_utf8(b),
    decreases a.len(),
{
    if a.len() == 0 {
        assert(a + b == b);
    } else {
        assert((a + b).drop_first() == a.drop_first() + b);
        assert((a + b)[0] == a[0]);
        lemma_encode_utf8_concat(a.drop_first(), b);
    }
}

/// A one-character string takes `utf8_width` bytes.
pub proof fn lemma_utf8_width(c: char)
    ensures
        utf8_len(seq![c]) == utf8_width(c),
{
    broadcast use char_is_scalar;
    let s = seq![c];
    assert(s.drop_first() == Seq::<char>::empty());
    assert(encode_utf8(Seq::<char>::empty()) == Seq::<u8>::empty());
    assert(encode_utf8(s) == encode_scalar(c as u32) + encode_utf8(s.drop_first()));
}

/// Extending a range of characters by one adds the width of that character.
pub proof fn lemma_utf8_len_extend(s: Seq<char>, lo: int, hi: int)
    requires
        0 <= lo <= hi < s.len(),
    ensures
        utf8_len(s.subrange(lo, hi + 1)) == utf8_len(s.subrange(lo, hi)) + utf8_width(s[hi]),
{
    assert(s.subrange(lo, hi + 1) == s.subrange(lo, hi) + seq![s[hi]]);
    lemma_encode_utf8_concat(s.subrange(lo, hi), seq![s[hi]]);
    lemma_utf8_width(s[hi]);
}

/// The leading whitespace of `s` is exactly its first `k` characters.
proof fn lemma_trim_start_at(s: Seq<char>, k: int)
    requires
        0 <= k <= s.len(),
        forall|i: int| 0 <= i < k ==> is_white_space(#[trigger] s[i]),
        k == s.len() || !is_white_space(s[k]),
    ensures
        trim_start(s) == s.subrange(k, s.len() as int),
    decreases k,
{
    if k == 0 {
        assert(s.subrange(0, s.len() as int) == s);
    } else {
        let t = s.drop_first();
        assert forall|i: int| 0 <= i < k - 1 implies is_white_space(#[trigger] t[i]) by {
            assert(t[i] == s[i + 1]);
        }
        lemma_trim_start_at(t, k - 1);
        assert(t.subrange(k - 1, t.len() as int) == s.subrange(k, s.len() as int));
    }
}

/// The trailing whitespace of `s` is exactly what follows its first `k`
/// characters.
proof fn lemma_trim_end_at(s: Seq<char>, k: int)
    requires
        0 <= k <= s.len(),
        forall|i: int| k <= i < s.len() ==> is_white_space(#[trigger] s[i]),
        k == 0 || !is_white_space(s[k - 1]),
    ensures
        trim_end(s) == s.subrange(0, k),
    decreases s.len() - k,
{
    if k == s.len() {
        assert(s.subrange(0, k) == s);
    } else {
        let t = s.drop_last();
        assert(is_white_space(s[s.len() - 1]));
        assert forall|i: int| k <= i < t.len() implies is_white_space(#[trigger] t[i]) by {
            assert(t[i] == s[i]);
        }
        lemma_trim_end_at(t, k);
        assert(t.subrange(0, k) == s.subrange(0, k));
    }
}

/// Every character of `w` is whitespace.
pub open spec fn all_white_space(w: Seq<char>) -> bool {
    forall|i: int| 0 <= i < w.len() ==> is_white_space(#[trigger] w[i])
}

/// Leading whitespace disappears under `trim_start`.
proof fn lemma_trim_start_skips(w: Seq<char>, x: Seq<char>)
    requires
        all_white_space(w),
    ensures
        trim_start(w + x) == trim_start(x),
    decreases w.len(),
{
    if w.len() > 0 {
        assert((w + x)[0] == w[0]);
        assert((w + x).drop_first() == w.drop_first() + x);
        assert forall|i: int| 0 <= i < w.drop_first().len() implies is_white_space(#[trigger] w.drop_first()[i]) by {
            assert(w.drop_first()[i] == w[i + 1]);
        }
        lemma_trim_start_skips(w.drop_first(), x);
    } else {
        assert(w + x == x);
    }
}

/// Trailing whitespace disappears under `trim_end`.
proof fn lemma_trim_end_skips(y: Seq<char>, w: Seq<char>)
    requires
        all_white_space(w),
    ensures
        trim_end(y + w) == trim_end(y),
    decreases w.len(),
{
    if w.len() > 0 {
        assert((y + w).last() == w.last());
        assert((y + w).drop_last() == y + w.drop_last());
        assert forall|i: int| 0 <= i < w.drop_last().len() implies is_white_space(#[trigger] w.drop_last()[i]) by {
            assert(w.drop_last()[i] == w[i]);
        }
        lemma_trim_end_skips(y, w.drop_last());
    } else {
        assert(y + w == y);
    }
}

/// `trim_start(s)` is `s` after a whitespace prefix, and starts with a
/// character that is not whitespace (when not empty).
proof fn lemma_trim_start_shape(s: Seq<char>) -> (k: int)
    ensures
        0 <= k <= s.len(),
        all_white_space(s.take(k)),
        trim_start(s) == s.skip(k),
        k < s.len() ==> !is_white_space(s[k]),
    decreases s.len(),
{
    if s.len() > 0 && is_white_space(s[0]) {
        let k1 = lemma_trim_start_shape(s.drop_first());
        assert forall|i: int| 0 <= i < k1 + 1 implies is_white_space(#[trigger] s.take(k1 + 1)[i]) by {
            if i > 0 {
                assert(s.take(k1 + 1)[i] == s.drop_first().take(k1)[i - 1]);
            }
        }
        assert(s.drop_first().skip(k1) == s.skip(k1 + 1));
        k1 + 1
    } else {
        assert(s.skip(0) == s);
        assert(s.take(0).len() == 0);
        0
    }
}

/// `trim_end(s)` is `s` before a whitespace suffix, and ends with a
/// character that is not whitespace (when not empty).
proof fn lemma_trim_end_shape(s: Seq<char>) -> (k: int)
    ensures
        0 <= k <= s.len(),
        all_white_space(s.skip(k)),
        trim_end(s) == s.take(k),
        k > 0 ==> !is_white_space(s[k - 1]),
    decreases s.len(),
{
    if s.len() > 0 && is_white_space(s.last()) {
        let k1 = lemma_trim_end_shape(s.drop_last());
        assert forall|i: int| 0 <= i < s.len() - k1 implies is_white_space(#[trigger] s.skip(k1)[i]) by {
            if i < s.len() - 1 - k1 {
                assert(s.skip(k1)[i] == s.drop_last().skip(k1)[i]);
            } else {
                assert(s.skip(k1)[i] == s.last());
            }
        }
        assert(s.drop_last().take(k1) == s.take(k1));
        if k1 > 0 {
            assert(s.drop_last()[k1 - 1] == s[k1 - 1]);
        }
        k1
    } else {
        assert(s.take(s.len() as int) == s);
        assert(s.skip(s.len() as int).len() == 0);
        s.len() as int
    }
}

/// Whitespace around a text changes nothing of it once trimmed: every
/// rule stated on `trim(s)` ignores padding.
pub proof fn lemma_trim_ignores_padding(w1: Seq<char>, s: Seq<char>, w2: Seq<char>)
    requires
        all_white_space(w1),
        all_white_space(w2),
    ensures
        trim(w1 + s + w2) == trim(s),
{
    assert(w1 + s + w2 == w1 + (s + w2));
    lemma_trim_start_skips(w1, s + w2);
    let k = lemma_trim_start_shape(s);
    let ts = s.skip(k);
    assert(s == s.take(k) + ts);
    assert(s + w2 == s.take(k) + (ts + w2));
    lemma_trim_start_skips(s.take(k), ts + w2);
    if ts.len() > 0 {
        assert((ts + w2)[0] == ts[0]);
        assert(trim_start(ts + w2) == ts + w2);
        lemma_trim_end_skips(ts, w2);
    } else {
        assert(ts + w2 == w2);
        assert(w2 == w2 + Seq::<char>::empty());
        lemma_trim_start_skips(w2, Seq::<char>::empty());
        assert(trim_start(Seq::<char>::empty()) == Seq::<char>::empty());
    }
}

/// Trimming twice is trimming once.
pub proof fn lemma_trim_idempotent(s: Seq<char>)
    ensures
        trim(trim(s)) == trim(s),
{
    let k = lemma_trim_start_shape(s);
    let ts = s.skip(k);
    let j = lemma_trim_end_shape(ts);
    let t = ts.take(j);
    if t.len() > 0 {
        assert(t[0] == ts[0]);
        assert(trim_start(t) == t);
        let j2 = lemma_trim_end_shape(t);
        assert(t[t.len() - 1] == ts[j - 1]);
        if j2 < t.len() {
            assert(is_white_space(t.skip(j2)[t.len() - 1 - j2]));
            assert(t.skip(j2)[t.len() - 1 - j2] == t[t.len() - 1]);
        }
        assert(t.take(t.len() as int) == t);
    } else {
        assert(trim_start(t) == t);
        assert(trim_end(t) == t);
    }
}

/// Whether `c` has the Unicode `White_Space` property.
pub fn is_white_space_char(c: char) -> (r: bool)
    ensures
        r == is_white_space(c),
{
    let u = c as u32;
    (0x9 <= u && u <= 0xD) || u == 0x20 || u == 0x85 || u == 0xA0 || u == 0x1680
        || (0x2000 <= u && u <= 0x200A) || u == 0x2028 || u == 0x2029 || u == 0x202F
        || u == 0x205F || u == 0x3000
}

/// Character positions `(lo, hi)` such that `s[lo..hi]` is `s` trimmed.
pub fn trimmed_range(s: &str) -> (r: (usize, usize))
    ensures
        r.0 <= r.1 <= s@.len(),
        trim(s@) == s@.subrange(r.0 as int, r.1 as int),
{
    let n = s.unicode_len();
    let mut lo: usize = 0;
    while lo < n && is_white_space_char(s.get_char(lo))
        invariant
            n == s@.len(),
            lo <= n,
            forall|i: int| 0 <= i < lo ==> is_white_space(#[trigger] s@[i]),
        decreases n - lo,
    {
        lo = lo + 1;
    }
    let mut hi: usize = n;
    while hi > lo && is_white_space_char(s.get_char(hi - 1))
        invariant
            n == s@.len(),
            lo <= hi <= n,
            forall|i: int| hi <= i < n ==> is_white_space(#[trigger] s@[i]),
        decreases hi - lo,
    {
        hi = hi - 1;
    }
    proof {
        lemma_trim_start_at(s@, lo as int);
        let t = s@.subrange(lo as int, n as int);
        let k = hi - lo;
        assert forall|i: int| k <= i < t.len() implies is_white_space(#[trigger] t[i]) by {
            assert(t[i] == s@[i + lo]);
        }
        if k > 0 {
            assert(t[k - 1] == s@[hi - 1]);
        }
        lemma_trim_end_at(t, k as int);
        assert(t.subrange(0, k as int) == s@.subrange(lo as int, hi as int));
    }
    (lo, hi)
}

/// Number of bytes `c` takes in UTF-8.
pub fn utf8_width_of(c: char) -> (r: usize)
    ensures
        r == utf8_width(c),
{
    let u = c as u32;
    if u <= 0x7F {
        1
    } else if u <= 0x7FF {
        2
    } else if u <= 0xFFFF {
        3
    } else {
        4
    }
}

/// Whether the characters `s[lo..hi]` take at least `min` bytes in UTF-8.
pub fn utf8_len_at_least(s: &str, lo: usize, hi: usize, min: u8) -> (r: bool)
    requires
        lo <= hi <= s@.len(),
    ensures
        r == (utf8_len(s@.subrange(lo as int, hi as int)) >= min),
{
    let mut count: usize = 0;
    let mut i: usize = lo;
    proof {
        assert(s@.subrange(lo as int, lo as int) == Seq::<char>::empty());
    }
    while i < hi && count < min as usize
        invariant
            lo <= i <= hi <= s@.len(),
            count == utf8_len(s@.subrange(lo as int, i as int)),
            count < min + 4,
        decreases hi - i,
    {
        proof { lemma_utf8_len_extend(s@, lo as int, i as int); }
        count = count + utf8_width_of(s.get_char(i));
        i = i + 1;
    }
    proof {
        if i < hi {
            // Every further character only adds bytes.
            lemma_encode_utf8_concat(s@.subrange(lo as int, i as int), s@.subrange(i as int, hi as int));
            assert(s@.subrange(lo as int, hi as int)
                == s@.subrange(lo as int, i as int) + s@.subrange(i as int, hi as int));
        }
    }
    count >= min as usize
}

/// Whether `s`, once trimmed, takes at least `min` bytes in UTF-8: the
/// check `s.trim().len() >= min`.
pub fn trimmed_utf8_len_at_least(s: &str, min: u8) -> (r: bool)
    ensures
        r == (utf8_len(trim(s@)) >= min),
{
    let (lo, hi) = trimmed_range(s);
    utf8_len_at_least(s, lo, hi, min)
}

/// Whether `s` has at least `min` characters: the check
/// `s.chars().count() >= min`.
pub fn len_at_least(s: &str, min: u8) -> (r: bool)
    ensures
        r == (s@.len() >= min),
{
    s.unicode_len() >= min as usize
}

/// Whether `s`, once trimmed, has at least `min` characters: the check
/// `s.trim().chars().count() >= min`.
pub fn trimmed_len_at_least(s: &str, min: u8) -> (r: bool)
    ensures
        r == (trim(s@).len() >= min),
{
    let (lo, hi) = trimmed_range(s);
    hi - lo >= min as usize
}

/// Whether `c` occurs among the characters `s[lo..hi]`.
pub fn contains_between(s: &str, lo: usize, hi: usize, c: char) -> (r: bool)
    requires
        lo <= hi <= s@.len(),
    ensures
        r == s@.subrange(lo as int, hi as int).contains(c),
{
    let mut i = lo;
    while i < hi
        invariant
            lo <= i <= hi <= s@.len(),
            forall|j: int| lo <= j < i ==> s@[j] != c,
        decreases hi - i,
    {
        if s.get_char(i) == c {
            proof { assert(s@.subrange(lo as int, hi as int)[i - lo] == c); }
            return true;
        }
        i = i + 1;
    }
    proof {
        if s@.subrange(lo as int, hi as int).contains(c) {
            let k = choose|k: int| 0 <= k < hi - lo && s@.subrange(lo as int, hi as int)[k] == c;
            assert(s@[lo + k] == c);
        }
    }
    false
}

/// Whether `s` begins with `prefix`.
pub fn starts_with_str(s: &str, prefix: &str) -> (r: bool)
    ensures
        r == (prefix@.len() <= s@.len() && s@.take(prefix@.len() as int) == prefix@),
{
    let n = s.unicode_len();
    let k = prefix.unicode_len();
    if k > n {
        return false;
    }
    let mut i: usize = 0;
    while i < k
        invariant
            k <= n,
            n == s@.len(),
            k == prefix@.len(),
            i <= k,
            forall|j: int| 0 <= j < i ==> s@[j] == prefix@[j],
        decreases k - i,
    {
        if s.get_char(i) != prefix.get_char(i) {
            proof { assert(s@.take(k as int)[i as int] != prefix@[i as int]); }
            return false;
        }
        i = i + 1;
    }
    proof { assert(s@.take(k as int) =~= prefix@); }
    true
}

} // verus!
