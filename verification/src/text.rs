use vstd::prelude::*;
use vstd::std_specs::iter::IteratorSpec;

verus! {

broadcast use vstd::string::group_string_axioms;

/// What std's `str::to_lowercase` returns for a string, by its characters.
pub uninterp spec fn lowercase(s: Seq<char>) -> Seq<char>;

/// The ASCII lowercase of a character: `A`..=`Z` become `a`..=`z`, every
/// other character stays.
pub open spec fn ascii_lower(c: char) -> char {
    if 'A' <= c <= 'Z' {
        ((c as u32) + 32) as char
    } else {
        c
    }
}

/// Calls `str::to_lowercase`; the result is named by `lowercase`. As std
/// documents, each character maps to one or more characters, so the result
/// is at least as long as `s`, and empty exactly when `s` is. On ASCII text
/// the Unicode lowercase mapping is the ASCII one: `A`..=`Z` become
/// `a`..=`z`, and every other ASCII character maps to itself.
#[verifier::external_body]
pub(crate) fn to_lowercase(s: &str) -> (r: String)
    ensures
        r@ == lowercase(s@),
        s@.len() <= r@.len(),
        s@.len() == 0 ==> r@.len() == 0,
        (forall|i: int| 0 <= i < s@.len() ==> (#[trigger] s@[i] as u32) < 128) ==> r@
            == s@.map_values(|c: char| ascii_lower(c)),
{
    s.to_lowercase()
}

/// Collects characters into a `String` (std's `FromIterator<&char>` for `String`).
#[verifier::external_body]
pub(crate) fn string_from_chars(cs: &[char]) -> (r: String)
    ensures
        r@ == cs@,
{
    cs.iter().collect()
}

/// The characters of `s`, in order.
pub fn str_chars(s: &str) -> (r: Vec<char>)
    ensures
        r@ == s@,
{
    let mut it = s.chars();
    let mut out: Vec<char> = Vec::new();
    loop
        invariant
            out@ + it.remaining() == s@,
            it.decrease() is Some,
        decreases it.decrease()->0,
    {
        match it.next() {
            Some(c) => {
                out.push(c);
            },
            None => {
                return out;
            },
        }
    }
}

/// Whether two strings hold the same characters.
pub fn str_eq(a: &str, b: &str) -> (r: bool)
    ensures
        r == (a@ == b@),
{
    let x = str_chars(a);
    let y = str_chars(b);
    if x.len() != y.len() {
        return false;
    }
    let mut k: usize = 0;
    while k < x.len()
        invariant
            x.len() == y.len(),
            x@ == a@,
            y@ == b@,
            k <= x.len(),
            forall|t: int| 0 <= t < k ==> x@[t] == y@[t],
        decreases x.len() - k,
    {
        if x[k] != y[k] {
            assert(x@[k as int] != y@[k as int]);
            return false;
        }
        k = k + 1;
    }
    assert(x@ =~= y@);
    true
}

/// `needle` occurs in `hay` starting at position `i`.
pub open spec fn occurs_at(hay: Seq<char>, needle: Seq<char>, i: int) -> bool {
    0 <= i && i + needle.len() <= hay.len() && hay.subrange(i, i + needle.len()) == needle
}

/// `needle` occurs somewhere in `hay` (std's `str::contains` with a string pattern).
pub open spec fn seq_contains(hay: Seq<char>, needle: Seq<char>) -> bool {
    exists|i: int| occurs_at(hay, needle, i)
}

pub(crate) fn matches_at(hay: &Vec<char>, needle: &Vec<char>, i: usize) -> (r: bool)
    requires
        i + needle.len() <= hay.len(),
    ensures
        r == occurs_at(hay@, needle@, i as int),
{
    let n = needle.len();
    let mut k: usize = 0;
    while k < n
        invariant
            k <= n,
            n == needle.len(),
            i + n <= hay.len(),
            forall|t: int| 0 <= t < k ==> hay@[i + t] == needle@[t],
        decreases n - k,
    {
        if hay[i + k] != needle[k] {
            assert(hay@.subrange(i as int, i + n)[k as int] != needle@[k as int]);
            return false;
        }
        k = k + 1;
    }
    assert(hay@.subrange(i as int, i + n) =~= needle@);
    true
}

/// Whether `needle` occurs as a contiguous run of characters of `hay`.
pub fn contains_chars(hay: &Vec<char>, needle: &Vec<char>) -> (r: bool)
    ensures
        r == seq_contains(hay@, needle@),
{
    if needle.len() > hay.len() {
        return false;
    }
    if needle.len() == 0 {
        assert(hay@.subrange(0, 0) =~= needle@);
        assert(occurs_at(hay@, needle@, 0));
        return true;
    }
    let last = hay.len() - needle.len();
    let mut i: usize = 0;
    while i <= last
        invariant
            last + needle.len() == hay.len(),
            needle.len() > 0,
            i <= last + 1,
            forall|j: int| 0 <= j < i ==> !occurs_at(hay@, needle@, j),
        decreases last + 1 - i,
    {
        if matches_at(hay, needle, i) {
            return true;
        }
        i = i + 1;
    }
    assert forall|j: int| !occurs_at(hay@, needle@, j) by {
        if 0 <= j && j + needle@.len() <= hay@.len() {
            assert(j <= last);
        }
    }
    false
}

/// Whether the string `needle` occurs in the string `hay`.
pub fn str_contains(hay: &str, needle: &str) -> (r: bool)
    ensures
        r == seq_contains(hay@, needle@),
{
    let h = str_chars(hay);
    let n = str_chars(needle);
    contains_chars(&h, &n)
}

/// `pat` is a subsequence of `t`, matched greedily from the left.
pub open spec fn is_subsequence(pat: Seq<char>, t: Seq<char>) -> bool
    decreases t.len(),
{
    if pat.len() == 0 {
        true
    } else if t.len() == 0 {
        false
    } else if t[0] == pat[0] {
        is_subsequence(pat.drop_first(), t.drop_first())
    } else {
        is_subsequence(pat, t.drop_first())
    }
}

proof fn lemma_subsequence_drop_pattern(p: Seq<char>, t: Seq<char>)
    requires
        p.len() > 0,
        is_subsequence(p, t),
    ensures
        is_subsequence(p.drop_first(), t),
    decreases t.len(), 1int,
{
    if t.len() > 0 {
        let q = p.drop_first();
        if t[0] == p[0] {
            lemma_subsequence_prepend(q, t);
        } else {
            lemma_subsequence_drop_pattern(p, t.drop_first());
            lemma_subsequence_prepend(q, t);
        }
    }
}

/// A subsequence of `t` without its first character is one of `t`.
proof fn lemma_subsequence_prepend(q: Seq<char>, t: Seq<char>)
    requires
        t.len() > 0,
        is_subsequence(q, t.drop_first()),
    ensures
        is_subsequence(q, t),
    decreases t.len(), 0int,
{
    if q.len() > 0 && t[0] == q[0] {
        lemma_subsequence_drop_pattern(q, t.drop_first());
    }
}

proof fn lemma_subsequence_of_prefix(p: Seq<char>, r: Seq<char>)
    ensures
        is_subsequence(p, p + r),
    decreases p.len(),
{
    if p.len() > 0 {
        assert((p + r).drop_first() =~= p.drop_first() + r);
        lemma_subsequence_of_prefix(p.drop_first(), r);
    }
}

proof fn lemma_subsequence_after(p: Seq<char>, a: Seq<char>, b: Seq<char>)
    requires
        is_subsequence(p, b),
    ensures
        is_subsequence(p, a + b),
    decreases a.len(),
{
    if a.len() > 0 {
        lemma_subsequence_after(p, a.drop_first(), b);
        assert((a + b).drop_first() =~= a.drop_first() + b);
        lemma_subsequence_prepend(p, a + b);
    } else {
        assert(a + b =~= b);
    }
}

/// A substring is a subsequence.
proof fn lemma_contains_is_subsequence(h: Seq<char>, n: Seq<char>)
    requires
        seq_contains(h, n),
    ensures
        is_subsequence(n, h),
{
    let i = choose|i: int| occurs_at(h, n, i);
    let rest = h.skip(i + n.len());
    lemma_subsequence_of_prefix(n, rest);
    lemma_subsequence_after(n, h.take(i), n + rest);
    assert(h.take(i) + (n + rest) =~= h);
}

/// The picker match is an in-order subsequence test on the lowercased
/// strings (a substring is one).
pub proof fn lemma_fuzzy_is_subsequence(pattern: Seq<char>, target: Seq<char>)
    ensures
        spec_fuzzy_match(pattern, target) == (pattern.len() == 0 || is_subsequence(
            lowercase(pattern),
            lowercase(target),
        )),
{
    if seq_contains(lowercase(target), lowercase(pattern)) {
        lemma_contains_is_subsequence(lowercase(target), lowercase(pattern));
    }
}

/// Whether the characters of `pat` appear in `t` in order.
pub fn subsequence_chars(pat: &Vec<char>, t: &Vec<char>) -> (r: bool)
    ensures
        r == is_subsequence(pat@, t@),
{
    let mut j: usize = 0;
    let mut i: usize = 0;
    assert(pat@.skip(0) =~= pat@);
    assert(t@.skip(0) =~= t@);
    while i < t.len()
        invariant
            j <= pat.len(),
            i <= t.len(),
            is_subsequence(pat@, t@) == is_subsequence(pat@.skip(j as int), t@.skip(i as int)),
        decreases t.len() - i,
    {
        if j == pat.len() {
            assert(pat@.skip(j as int).len() == 0);
            return true;
        }
        assert(t@.skip(i as int).drop_first() =~= t@.skip(i + 1));
        assert(pat@.skip(j as int).drop_first() =~= pat@.skip(j + 1));
        if t[i] == pat[j] {
            j = j + 1;
        }
        i = i + 1;
    }
    assert(t@.skip(i as int).len() == 0);
    j == pat.len()
}

/// Case-insensitive match: a substring match or an in-order subsequence match.
pub open spec fn spec_fuzzy_match(pattern: Seq<char>, target: Seq<char>) -> bool {
    let p = lowercase(pattern);
    let t = lowercase(target);
    pattern.len() == 0 || seq_contains(t, p) || is_subsequence(p, t)
}

/// Fuzzy match used by every picker: empty patterns match everything; else
/// the lowercased pattern must occur in, or be a subsequence of, the
/// lowercased target.
pub fn fuzzy_match_str(pattern: &str, target: &str) -> (r: bool)
    ensures
        r == spec_fuzzy_match(pattern@, target@),
{
    if pattern.unicode_len() == 0 {
        return true;
    }
    let p_lower = to_lowercase(pattern);
    let t_lower = to_lowercase(target);
    let p = str_chars(p_lower.as_str());
    let t = str_chars(t_lower.as_str());
    if contains_chars(&t, &p) {
        return true;
    }
    subsequence_chars(&p, &t)
}

/// The decimal digit character of `d`.
pub open spec fn digit_char(d: nat) -> char {
    if d == 0 {
        '0'
    } else if d == 1 {
        '1'
    } else if d == 2 {
        '2'
    } else if d == 3 {
        '3'
    } else if d == 4 {
        '4'
    } else if d == 5 {
        '5'
    } else if d == 6 {
        '6'
    } else if d == 7 {
        '7'
    } else if d == 8 {
        '8'
    } else {
        '9'
    }
}

/// The decimal representation of `n`, most significant digit first.
pub open spec fn decimal(n: nat) -> Seq<char>
    decreases n,
{
    if n < 10 {
        seq![digit_char(n)]
    } else {
        decimal(n / 10).push(digit_char(n % 10))
    }
}

fn exec_digit_char(d: usize) -> (c: char)
    ensures
        c == digit_char(d as nat),
{
    if d == 0 {
        '0'
    } else if d == 1 {
        '1'
    } else if d == 2 {
        '2'
    } else if d == 3 {
        '3'
    } else if d == 4 {
        '4'
    } else if d == 5 {
        '5'
    } else if d == 6 {
        '6'
    } else if d == 7 {
        '7'
    } else if d == 8 {
        '8'
    } else {
        '9'
    }
}

fn push_decimal(n: usize, out: &mut Vec<char>)
    ensures
        final(out)@ == old(out)@ + decimal(n as nat),
    decreases n,
{
    if n >= 10 {
        push_decimal(n / 10, out);
    }
    out.push(exec_digit_char(n % 10));
    proof {
        if n >= 10 {
            assert(old(out)@ + decimal(n as nat) =~= old(out)@ + decimal((n / 10) as nat) + seq![
                digit_char((n % 10) as nat),
            ]);
        } else {
            assert(decimal(n as nat) =~= seq![digit_char(n as nat)]);
        }
    }
}

/// The decimal text of `n` (what `format!("{n}")` writes).
pub fn usize_to_decimal(n: usize) -> (r: String)
    ensures
        r@ == decimal(n as nat),
{
    let mut v: Vec<char> = Vec::new();
    push_decimal(n, &mut v);
    assert(v@ =~= decimal(n as nat));
    string_from_chars(v.as_slice())
}

/// `s` ends with `suffix` (std's `str::ends_with` with a string pattern).
pub open spec fn seq_ends_with(s: Seq<char>, suffix: Seq<char>) -> bool {
    suffix.len() <= s.len() && s.subrange(s.len() - suffix.len(), s.len() as int) == suffix
}

/// Whether the string `s` ends with `suffix`.
pub fn str_ends_with(s: &str, suffix: &str) -> (r: bool)
    ensures
        r == seq_ends_with(s@, suffix@),
{
    let a = str_chars(s);
    let b = str_chars(suffix);
    if b.len() > a.len() {
        return false;
    }
    let off = a.len() - b.len();
    let mut k: usize = 0;
    while k < b.len()
        invariant
            off + b.len() == a.len(),
            a@ == s@,
            b@ == suffix@,
            k <= b.len(),
            forall|t: int| 0 <= t < k ==> a@[off + t] == b@[t],
        decreases b.len() - k,
    {
        if a[off + k] != b[k] {
            assert(a@.subrange(off as int, a@.len() as int)[k as int] == a@[off + k]);
            assert(a@.subrange(off as int, a@.len() as int) != b@);
            return false;
        }
        k = k + 1;
    }
    assert(a@.subrange(off as int, a@.len() as int) =~= b@);
    true
}

/// Rust's `char::is_whitespace`: the Unicode `White_Space` property.
pub open spec fn is_whitespace(c: char) -> bool {
    let u = c as u32;
    ||| 0x09 <= u <= 0x0D
    ||| u == 0x20
    ||| u == 0x85
    ||| u == 0xA0
    ||| u == 0x1680
    ||| 0x2000 <= u <= 0x200A
    ||| u == 0x2028
    ||| u == 0x2029
    ||| u == 0x202F
    ||| u == 0x205F
    ||| u == 0x3000
}

/// Whether a character is whitespace in the sense of `char::is_whitespace`.
pub fn char_is_whitespace(c: char) -> (r: bool)
    ensures
        r == is_whitespace(c),
{
    let u = c as u32;
    (0x09 <= u && u <= 0x0D) || u == 0x20 || u == 0x85 || u == 0xA0 || u == 0x1680 || (0x2000 <= u
        && u <= 0x200A) || u == 0x2028 || u == 0x2029 || u == 0x202F || u == 0x205F || u == 0x3000
}

/// All characters of `s` are whitespace (so `s.trim()` is empty).
pub open spec fn all_whitespace(s: Seq<char>) -> bool {
    forall|i: int| 0 <= i < s.len() ==> is_whitespace(#[trigger] s[i])
}

/// The index of the first non-whitespace character, or `s.len()`.
pub open spec fn trim_start_index(s: Seq<char>) -> int
    decreases s.len(),
{
    if s.len() == 0 || !is_whitespace(s[0]) {
        0
    } else {
        1 + trim_start_index(s.drop_first())
    }
}

/// One past the last non-whitespace character, or 0.
pub open spec fn trim_end_index(s: Seq<char>) -> int
    decreases s.len(),
{
    if s.len() == 0 || !is_whitespace(s.last()) {
        s.len() as int
    } else {
        trim_end_index(s.drop_last())
    }
}

/// `str::trim`: `s` without leading and trailing whitespace.
pub open spec fn trimmed(s: Seq<char>) -> Seq<char> {
    let a = trim_start_index(s);
    let b = trim_end_index(s);
    if a < b {
        s.subrange(a, b)
    } else {
        Seq::empty()
    }
}

proof fn lemma_trim_start_skip(s: Seq<char>, i: int)
    requires
        0 <= i <= s.len(),
        forall|j: int| 0 <= j < i ==> is_whitespace(#[trigger] s[j]),
    ensures
        trim_start_index(s) == i + trim_start_index(s.skip(i)),
    decreases i,
{
    if i > 0 {
        assert(s.drop_first().skip(i - 1) =~= s.skip(i));
        assert forall|j: int| 0 <= j < i - 1 implies is_whitespace(#[trigger] s.drop_first()[j]) by {
            assert(s.drop_first()[j] == s[j + 1]);
        }
        lemma_trim_start_skip(s.drop_first(), i - 1);
    } else {
        assert(s.skip(0) =~= s);
    }
}

proof fn lemma_trim_end_take(s: Seq<char>, j: int)
    requires
        0 <= j <= s.len(),
        forall|k: int| j <= k < s.len() ==> is_whitespace(#[trigger] s[k]),
    ensures
        trim_end_index(s) == trim_end_index(s.take(j)),
    decreases s.len() - j,
{
    if j < s.len() {
        assert(s.drop_last().take(j) =~= s.take(j));
        assert forall|k: int| j <= k < s.drop_last().len() implies is_whitespace(
            #[trigger] s.drop_last()[k],
        ) by {
            assert(s.drop_last()[k] == s[k]);
        }
        lemma_trim_end_take(s.drop_last(), j);
    } else {
        assert(s.take(j) =~= s);
    }
}

/// `str::trim`: the string without leading and trailing whitespace.
pub fn trim_str(s: &str) -> (r: String)
    ensures
        r@ == trimmed(s@),
{
    let cs = str_chars(s);
    let n = cs.len();
    let mut a: usize = 0;
    while a < n && char_is_whitespace(cs[a])
        invariant
            a <= n,
            n == cs.len(),
            forall|j: int| 0 <= j < a ==> is_whitespace(#[trigger] cs@[j]),
        decreases n - a,
    {
        a = a + 1;
    }
    proof {
        lemma_trim_start_skip(cs@, a as int);
        if a < n {
            assert(cs@.skip(a as int)[0] == cs@[a as int]);
        }
    }
    let mut b: usize = n;
    while b > 0 && char_is_whitespace(cs[b - 1])
        invariant
            b <= n,
            n == cs.len(),
            forall|k: int| b <= k < n ==> is_whitespace(#[trigger] cs@[k]),
        decreases b,
    {
        b = b - 1;
    }
    proof {
        lemma_trim_end_take(cs@, b as int);
        if b > 0 {
            assert(cs@.take(b as int).last() == cs@[b - 1]);
        }
    }
    if a < b {
        let mut out: Vec<char> = Vec::new();
        let mut k: usize = a;
        while k < b
            invariant
                a <= k <= b,
                b <= n,
                n == cs.len(),
                out@ == cs@.subrange(a as int, k as int),
            decreases b - k,
        {
            out.push(cs[k]);
            k = k + 1;
            assert(out@ =~= cs@.subrange(a as int, k as int));
        }
        string_from_chars(out.as_slice())
    } else {
        string_from_chars(&[])
    }
}

/// Filtering one more element of a sequence appends it when it passes.
pub(crate) proof fn lemma_filter_step<A>(s: Seq<A>, pred: spec_fn(A) -> bool, i: int)
    requires
        0 <= i < s.len(),
    ensures
        s.take(i + 1).filter(pred) == (if pred(s[i]) {
            s.take(i).filter(pred).push(s[i])
        } else {
            s.take(i).filter(pred)
        }),
{
    reveal(Seq::filter);
    assert(s.take(i + 1).drop_last() =~= s.take(i));
    assert(s.take(i + 1).last() == s[i]);
}

} // verus!
