//! Character-level text operations used throughout the library: ASCII case
//! folding, Unicode whitespace trimming, equality, prefix/suffix and
//! substring tests. Every operation is stated over `Seq<char>`, the view of
//! `str` and `String`.
use vstd::prelude::*;
use vstd::string::StringExecFns;

verus! {

/// `c` is an ASCII capital letter.
pub open spec fn is_ascii_upper(c: char) -> bool {
    'A' <= c <= 'Z'
}

/// ASCII lowercase of one character; every other character is unchanged.
pub open spec fn lower_char(c: char) -> char {
    if is_ascii_upper(c) {
        ((c as u32) + 32) as char
    } else {
        c
    }
}

/// ASCII lowercase of a character sequence (what `to_ascii_lowercase` gives).
pub open spec fn ascii_lower(s: Seq<char>) -> Seq<char> {
    Seq::new(s.len(), |i: int| lower_char(s[i]))
}

/// The Unicode `White_Space` property, as `char::is_whitespace` documents it.
pub open spec fn is_white_space(c: char) -> bool {
    ||| '\u{9}' <= c <= '\u{d}'
    ||| c == ' '
    ||| c == '\u{85}'
    ||| c == '\u{a0}'
    ||| c == '\u{1680}'
    ||| '\u{2000}' <= c <= '\u{200a}'
    ||| c == '\u{2028}'
    ||| c == '\u{2029}'
    ||| c == '\u{202f}'
    ||| c == '\u{205f}'
    ||| c == '\u{3000}'
}

/// Number of leading whitespace characters.
pub open spec fn trim_lo(s: Seq<char>) -> int
    decreases s.len(),
{
    if s.len() == 0 {
        0
    } else if is_white_space(s[0]) {
        1 + trim_lo(s.drop_first())
    } else {
        0
    }
}

/// Length of `s` without its trailing whitespace.
pub open spec fn trim_hi(s: Seq<char>) -> int
    decreases s.len(),
{
    if s.len() == 0 {
        0
    } else if is_white_space(s.last()) {
        trim_hi(s.drop_last())
    } else {
        s.len() as int
    }
}

/// `s` without leading and trailing whitespace (what `str::trim` gives).
pub open spec fn trimmed(s: Seq<char>) -> Seq<char> {
    if trim_lo(s) >= trim_hi(s) {
        Seq::empty()
    } else {
        s.subrange(trim_lo(s), trim_hi(s))
    }
}

/// `needle` occurs in `hay` at position `i`.
pub open spec fn occurs_at(hay: Seq<char>, needle: Seq<char>, i: int) -> bool {
    0 <= i && i + needle.len() <= hay.len() && hay.subrange(i, i + needle.len()) == needle
}

/// `needle` is a contiguous part of `hay` (what `str::contains` decides).
pub open spec fn has_substring(hay: Seq<char>, needle: Seq<char>) -> bool {
    exists|i: int| occurs_at(hay, needle, i)
}

/// `s` begins with `p`.
pub open spec fn has_prefix(s: Seq<char>, p: Seq<char>) -> bool {
    p.len() <= s.len() && s.subrange(0, p.len() as int) == p
}

/// `s` ends with `p`.
pub open spec fn has_suffix(s: Seq<char>, p: Seq<char>) -> bool {
    p.len() <= s.len() && s.subrange(s.len() - p.len(), s.len() as int) == p
}

/// Case-insensitive equality in the sense of `eq_ignore_ascii_case`.
pub open spec fn eq_ignore_case(a: Seq<char>, b: Seq<char>) -> bool {
    ascii_lower(a) == ascii_lower(b)
}

/// `i` leading characters are whitespace and the next is not: `i` is the
/// number of leading whitespace characters.
pub proof fn lemma_trim_lo(s: Seq<char>, i: int)
    requires
        0 <= i <= s.len(),
        forall|k: int| 0 <= k < i ==> is_white_space(#[trigger] s[k]),
        i == s.len() || !is_white_space(s[i]),
    ensures
        trim_lo(s) == i,
    decreases i,
{
    if i > 0 {
        let t = s.drop_first();
        assert forall|k: int| 0 <= k < i - 1 implies is_white_space(#[trigger] t[k]) by {
            assert(t[k] == s[k + 1]);
        }
        if i < s.len() {
            assert(t[i - 1] == s[i]);
        }
        lemma_trim_lo(t, i - 1);
    }
}

/// Everything from `j` on is whitespace and the character before `j` is
/// not: `j` is the length without trailing whitespace.
pub proof fn lemma_trim_hi(s: Seq<char>, j: int)
    requires
        0 <= j <= s.len(),
        forall|k: int| j <= k < s.len() ==> is_white_space(#[trigger] s[k]),
        j == 0 || !is_white_space(s[j - 1]),
    ensures
        trim_hi(s) == j,
    decreases s.len(),
{
    if s.len() > 0 {
        if j < s.len() {
            let t = s.drop_last();
            assert(is_white_space(s[s.len() - 1]));
            assert forall|k: int| j <= k < t.len() implies is_white_space(#[trigger] t[k]) by {
                assert(t[k] == s[k]);
            }
            if j > 0 {
                assert(t[j - 1] == s[j - 1]);
            }
            lemma_trim_hi(t, j);
        }
    }
}

proof fn lemma_trim_hi_all_white(s: Seq<char>)
    requires
        forall|k: int| 0 <= k < s.len() ==> is_white_space(#[trigger] s[k]),
    ensures
        trim_hi(s) == 0,
{
    lemma_trim_hi(s, 0);
}

/// A word without whitespace at either end, padded by one space on either
/// side, trims back to itself.
pub proof fn lemma_trimmed_padded(w: Seq<char>)
    requires
        w.len() > 0,
        !is_white_space(w[0]),
        !is_white_space(w.last()),
    ensures
        trimmed(w + seq![' ']) == w,
        trimmed(seq![' '] + w) == w,
{
    let s = w + seq![' '];
    assert(s[0] == w[0]);
    assert(s[w.len() - 1] == w.last());
    lemma_trim_lo(s, 0);
    assert forall|k: int| w.len() <= k < s.len() implies is_white_space(#[trigger] s[k]) by {
        assert(s[k] == ' ');
    }
    lemma_trim_hi(s, w.len() as int);
    assert(s.subrange(0, w.len() as int) =~= w);
    let u = seq![' '] + w;
    assert(u[0] == ' ');
    assert(u[1] == w[0]);
    assert(u[u.len() - 1] == w.last());
    assert forall|k: int| 0 <= k < 1 implies is_white_space(#[trigger] u[k]) by {}
    lemma_trim_lo(u, 1);
    lemma_trim_hi(u, u.len() as int);
    assert(u.subrange(1, u.len() as int) =~= w);
}

proof fn lemma_trim_lo_props(s: Seq<char>)
    ensures
        0 <= trim_lo(s) <= s.len(),
        forall|k: int| 0 <= k < trim_lo(s) ==> is_white_space(#[trigger] s[k]),
        trim_lo(s) < s.len() ==> !is_white_space(s[trim_lo(s)]),
    decreases s.len(),
{
    if s.len() > 0 && is_white_space(s[0]) {
        let t = s.drop_first();
        lemma_trim_lo_props(t);
        assert forall|k: int| 0 <= k < trim_lo(s) implies is_white_space(#[trigger] s[k]) by {
            if k > 0 {
                assert(s[k] == t[k - 1]);
            }
        }
        if trim_lo(s) < s.len() {
            assert(s[trim_lo(s)] == t[trim_lo(t)]);
        }
    }
}

proof fn lemma_trim_hi_props(s: Seq<char>)
    ensures
        0 <= trim_hi(s) <= s.len(),
        forall|k: int| trim_hi(s) <= k < s.len() ==> is_white_space(#[trigger] s[k]),
        trim_hi(s) > 0 ==> !is_white_space(s[trim_hi(s) - 1]),
    decreases s.len(),
{
    if s.len() > 0 && is_white_space(s.last()) {
        let t = s.drop_last();
        lemma_trim_hi_props(t);
        assert forall|k: int| trim_hi(s) <= k < s.len() implies is_white_space(#[trigger] s[k]) by {
            if k < s.len() - 1 {
                assert(s[k] == t[k]);
            }
        }
        if trim_hi(s) > 0 {
            assert(s[trim_hi(s) - 1] == t[trim_hi(t) - 1]);
        }
    }
}

/// Trimming twice is trimming once, and a trimmed text is a part of the
/// original text.
pub proof fn lemma_trimmed_idempotent(s: Seq<char>)
    ensures
        trimmed(trimmed(s)) == trimmed(s),
        forall|k: int| 0 <= k < trimmed(s).len() ==> exists|j: int| 0 <= j < s.len() && s[j] == #[trigger] trimmed(s)[k],
{
    lemma_trim_lo_props(s);
    lemma_trim_hi_props(s);
    let t = trimmed(s);
    if trim_lo(s) < trim_hi(s) {
        assert(t[0] == s[trim_lo(s)]);
        assert(t[t.len() - 1] == s[trim_hi(s) - 1]);
        lemma_trim_lo(t, 0);
        lemma_trim_hi(t, t.len() as int);
        assert(t.subrange(0, t.len() as int) =~= t);
        assert forall|k: int| 0 <= k < t.len() implies exists|j: int| 0 <= j < s.len() && s[j] == #[trigger] t[k] by {
            assert(s[trim_lo(s) + k] == t[k]);
        }
    } else {
        assert(t =~= Seq::<char>::empty());
        assert(trim_lo(t) == 0 && trim_hi(t) == 0);
    }
}

proof fn lemma_trim_lo_push(p: Seq<char>, c: char)
    requires
        trim_lo(p) < p.len(),
    ensures
        trim_lo(p.push(c)) == trim_lo(p),
    decreases p.len(),
{
    if is_white_space(p[0]) {
        assert(p.push(c).drop_first() =~= p.drop_first().push(c));
        lemma_trim_lo_push(p.drop_first(), c);
    }
}

/// A space added at the end leaves the trimmed text unchanged.
pub proof fn lemma_trimmed_push_space(p: Seq<char>)
    ensures
        trimmed(p.push(' ')) == trimmed(p),
{
    let q = p.push(' ');
    assert(q.drop_last() =~= p);
    assert(trim_hi(q) == trim_hi(p));
    lemma_trim_lo_props(p);
    lemma_trim_hi_props(p);
    lemma_trim_lo_props(q);
    if trim_lo(p) < p.len() {
        lemma_trim_lo_push(p, ' ');
        if trim_lo(p) < trim_hi(p) {
            assert(q.subrange(trim_lo(q), trim_hi(q)) =~= p.subrange(trim_lo(p), trim_hi(p)));
        }
    } else {
        assert(trim_hi(p) <= trim_lo(p));
    }
}

/// A non-empty text that trimming leaves unchanged has no whitespace at
/// either end.
pub proof fn lemma_trimmed_ends(w: Seq<char>)
    requires
        w.len() > 0,
        trimmed(w) == w,
    ensures
        !is_white_space(w[0]),
        !is_white_space(w.last()),
{
    lemma_trim_lo_props(w);
    lemma_trim_hi_props(w);
    if is_white_space(w[0]) || is_white_space(w.last()) {
        assert(trimmed(w).len() < w.len());
    }
}

/// The characters of `s`, in order.
pub fn chars_of(s: &str) -> (v: Vec<char>)
    ensures
        v@ == s@,
{
    let mut v: Vec<char> = Vec::new();
    for c in it: s.chars()
        invariant
            v@ == it.seq().take(it.index() as int),
            it.seq() == s@,
    {
        v.push(c);
    }
    v
}

/// Appends one character to a `String` by calling `String::push`, which std
/// documents as appending the character at the end. The contract states
/// exactly that; it is believed, not proved.
#[verifier::external_body]
pub(crate) fn push_char(s: &mut String, c: char)
    ensures
        final(s)@ == old(s)@.push(c),
{
    s.push(c);
}

/// Appends `t` to `s`.
pub fn append_str(s: &mut String, t: &str)
    ensures
        final(s)@ == old(s)@ + t@,
{
    s.append(t);
}

/// A `String` holding exactly the characters of `s@.subrange(from, to)`.
pub fn string_of_range(s: &Vec<char>, from: usize, to: usize) -> (r: String)
    requires
        from <= to <= s.len(),
    ensures
        r@ == s@.subrange(from as int, to as int),
{
    let mut r = String::new();
    let mut i = from;
    while i < to
        invariant
            from <= i <= to <= s.len(),
            r@ == s@.subrange(from as int, i as int),
        decreases to - i,
    {
        push_char(&mut r, s[i]);
        assert(s@.subrange(from as int, i + 1) == s@.subrange(from as int, i as int).push(s@[i as int]));
        i = i + 1;
    }
    r
}

/// Copies a string slice into an owned `String`.
pub fn owned(s: &str) -> (r: String)
    ensures
        r@ == s@,
{
    let cs = chars_of(s);
    string_of_range(&cs, 0, cs.len())
}

/// ASCII lowercase of one character (`char::to_ascii_lowercase`).
pub fn to_lower_char(c: char) -> (r: char)
    ensures
        r == lower_char(c),
{
    if 'A' <= c && c <= 'Z' {
        ((c as u8) + 32) as char
    } else {
        c
    }
}

/// `char::is_whitespace`.
pub fn is_whitespace_char(c: char) -> (r: bool)
    ensures
        r == is_white_space(c),
{
    ('\u{9}' <= c && c <= '\u{d}') || c == ' ' || c == '\u{85}' || c == '\u{a0}' || c
        == '\u{1680}' || ('\u{2000}' <= c && c <= '\u{200a}') || c == '\u{2028}' || c
        == '\u{2029}' || c == '\u{202f}' || c == '\u{205f}' || c == '\u{3000}'
}

/// `str::to_ascii_lowercase`.
pub fn to_ascii_lowercase(s: &str) -> (r: String)
    ensures
        r@ == ascii_lower(s@),
{
    let cs = chars_of(s);
    let mut r = String::new();
    let mut i: usize = 0;
    while i < cs.len()
        invariant
            i <= cs.len(),
            cs@ == s@,
            r@ == ascii_lower(s@).subrange(0, i as int),
        decreases cs.len() - i,
    {
        push_char(&mut r, to_lower_char(cs[i]));
        assert(ascii_lower(s@).subrange(0, i + 1) == ascii_lower(s@).subrange(0, i as int).push(
            lower_char(s@[i as int]),
        ));
        i = i + 1;
    }
    assert(ascii_lower(s@).subrange(0, i as int) == ascii_lower(s@));
    r
}

/// The bounds `(lo, hi)` of `str::trim` in `cs`: `trimmed(cs@)` is `cs@[lo..hi]`.
pub fn trim_bounds(cs: &Vec<char>) -> (r: (usize, usize))
    ensures
        r.0 <= r.1 <= cs.len(),
        cs@.subrange(r.0 as int, r.1 as int) == trimmed(cs@),
{
    let n = cs.len();
    let mut lo: usize = 0;
    while lo < n && is_whitespace_char(cs[lo])
        invariant
            lo <= n == cs.len(),
            forall|k: int| 0 <= k < lo ==> is_white_space(#[trigger] cs@[k]),
        decreases n - lo,
    {
        lo = lo + 1;
    }
    proof {
        lemma_trim_lo(cs@, lo as int);
    }
    let mut hi: usize = n;
    while hi > lo && is_whitespace_char(cs[hi - 1])
        invariant
            lo <= hi <= n == cs.len(),
            forall|k: int| hi <= k < n ==> is_white_space(#[trigger] cs@[k]),
        decreases hi,
    {
        hi = hi - 1;
    }
    proof {
        if hi > lo {
            lemma_trim_hi(cs@, hi as int);
        } else {
            // every character is whitespace: nothing survives the trim
            if lo < n {
                assert(!is_white_space(cs@[lo as int]));
                assert(is_white_space(cs@[lo as int]));
            }
            lemma_trim_hi_all_white(cs@);
            assert(cs@.subrange(lo as int, hi as int) =~= Seq::<char>::empty());
        }
    }
    (lo, hi)
}

/// `str::trim`, as an owned `String`.
pub fn trim(s: &str) -> (r: String)
    ensures
        r@ == trimmed(s@),
{
    let cs = chars_of(s);
    let (lo, hi) = trim_bounds(&cs);
    string_of_range(&cs, lo, hi)
}

/// Sequence equality of two character vectors.
pub fn chars_eq(a: &Vec<char>, b: &Vec<char>) -> (r: bool)
    ensures
        r == (a@ == b@),
{
    if a.len() != b.len() {
        return false;
    }
    let mut i: usize = 0;
    while i < a.len()
        invariant
            a.len() == b.len(),
            i <= a.len(),
            forall|k: int| 0 <= k < i ==> a@[k] == b@[k],
        decreases a.len() - i,
    {
        if a[i] != b[i] {
            return false;
        }
        i = i + 1;
    }
    assert(a@ =~= b@);
    true
}

/// `a == b` on string slices.
pub fn str_eq(a: &str, b: &str) -> (r: bool)
    ensures
        r == (a@ == b@),
{
    let ca = chars_of(a);
    let cb = chars_of(b);
    chars_eq(&ca, &cb)
}

/// `str::eq_ignore_ascii_case`.
pub fn eq_ignore_ascii_case(a: &str, b: &str) -> (r: bool)
    ensures
        r == eq_ignore_case(a@, b@),
{
    let ca = chars_of(a);
    let cb = chars_of(b);
    if ca.len() != cb.len() {
        assert(ascii_lower(a@).len() != ascii_lower(b@).len());
        return false;
    }
    let mut i: usize = 0;
    while i < ca.len()
        invariant
            ca@ == a@,
            cb@ == b@,
            ca.len() == cb.len(),
            i <= ca.len(),
            forall|k: int| 0 <= k < i ==> lower_char(a@[k]) == lower_char(b@[k]),
        decreases ca.len() - i,
    {
        if to_lower_char(ca[i]) != to_lower_char(cb[i]) {
            assert(ascii_lower(a@)[i as int] != ascii_lower(b@)[i as int]);
            return false;
        }
        i = i + 1;
    }
    assert(ascii_lower(a@) =~= ascii_lower(b@));
    true
}

/// `needle` occurs in `hay` at `i` (checked character by character).
pub fn occurs_at_exec(hay: &Vec<char>, needle: &Vec<char>, i: usize) -> (r: bool)
    requires
        i + needle.len() <= hay.len(),
    ensures
        r == occurs_at(hay@, needle@, i as int),
{
    let mut k: usize = 0;
    while k < needle.len()
        invariant
            i + needle.len() <= hay.len(),
            k <= needle.len(),
            forall|j: int| 0 <= j < k ==> hay@[i + j] == needle@[j],
        decreases needle.len() - k,
    {
        if hay[i + k] != needle[k] {
            assert(hay@.subrange(i as int, i + needle.len())[k as int] != needle@[k as int]);
            return false;
        }
        k = k + 1;
    }
    assert(hay@.subrange(i as int, i + needle.len()) =~= needle@);
    true
}

/// Substring search over character vectors.
pub fn chars_contain(hay: &Vec<char>, needle: &Vec<char>) -> (r: bool)
    ensures
        r == has_substring(hay@, needle@),
{
    if needle.len() > hay.len() {
        return false;
    }
    let last = hay.len() - needle.len();
    let mut i: usize = 0;
    loop
        invariant
            i <= last,
            last + needle.len() == hay.len(),
            forall|j: int| 0 <= j < i ==> !occurs_at(hay@, needle@, j),
        ensures
            forall|j: int| 0 <= j <= last ==> !occurs_at(hay@, needle@, j),
        decreases last - i,
    {
        if occurs_at_exec(hay, needle, i) {
            return true;
        }
        if i == last {
            break;
        }
        i = i + 1;
    }
    assert forall|j: int| !occurs_at(hay@, needle@, j) by {
        if 0 <= j && j + needle@.len() <= hay@.len() {
            assert(j <= last);
        }
    }
    false
}

/// `str::contains` with a string pattern.
pub fn str_contains(hay: &str, needle: &str) -> (r: bool)
    ensures
        r == has_substring(hay@, needle@),
{
    let h = chars_of(hay);
    let n = chars_of(needle);
    chars_contain(&h, &n)
}

/// `str::starts_with` with a string pattern.
pub fn starts_with(s: &str, p: &str) -> (r: bool)
    ensures
        r == has_prefix(s@, p@),
{
    let cs = chars_of(s);
    let cp = chars_of(p);
    if cp.len() > cs.len() {
        return false;
    }
    let r = occurs_at_exec(&cs, &cp, 0);
    r
}

/// `str::ends_with` with a string pattern.
pub fn ends_with(s: &str, p: &str) -> (r: bool)
    ensures
        r == has_suffix(s@, p@),
{
    let cs = chars_of(s);
    let cp = chars_of(p);
    if cp.len() > cs.len() {
        return false;
    }
    let r = occurs_at_exec(&cs, &cp, cs.len() - cp.len());
    r
}

/// The decimal digit character for `d` (0 to 9).
pub open spec fn digit_char(d: nat) -> char {
    ((d + 48) as u32) as char
}

/// The decimal representation of a natural number, without leading zeros.
pub open spec fn nat_decimal(n: nat) -> Seq<char>
    decreases n,
{
    if n < 10 {
        seq![digit_char(n)]
    } else {
        nat_decimal(n / 10).push(digit_char(n % 10))
    }
}

/// The decimal representation of an integer, with a leading `-` when it is
/// negative (what `Display` writes for integers).
pub open spec fn int_decimal(i: int) -> Seq<char> {
    if i < 0 {
        seq!['-'] + nat_decimal((-i) as nat)
    } else {
        nat_decimal(i as nat)
    }
}

/// Appends the decimal representation of `n` to `s`.
fn push_decimal(s: &mut String, n: u64)
    ensures
        final(s)@ == old(s)@ + nat_decimal(n as nat),
    decreases n,
{
    if n >= 10 {
        push_decimal(s, n / 10);
    }
    let d = (n % 10) as u8;
    push_char(s, (d + 48) as char);
    proof {
        if n >= 10 {
            assert(old(s)@ + nat_decimal((n / 10) as nat) + seq![digit_char((n % 10) as nat)] =~= old(s)@
                + nat_decimal(n as nat));
        } else {
            assert(nat_decimal(n as nat) =~= seq![digit_char(n as nat)]);
        }
    }
}

/// The decimal representation of `i` (`i.to_string()`).
pub fn i64_to_string(i: i64) -> (r: String)
    ensures
        r@ == int_decimal(i as int),
{
    let mut s = String::new();
    if i < 0 {
        push_char(&mut s, '-');
        let m: u64 = if i == i64::MIN { 9223372036854775808u64 } else { (-i) as u64 };
        push_decimal(&mut s, m);
        assert(s@ =~= seq!['-'] + nat_decimal((-(i as int)) as nat));
    } else {
        push_decimal(&mut s, i as u64);
        assert(s@ =~= nat_decimal(i as nat));
    }
    s
}

} // verus!
