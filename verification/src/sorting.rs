use vstd::prelude::*;

use crate::palette::strings_view;
use crate::text::str_chars;

verus! {

broadcast use vstd::seq_lib::group_to_multiset_ensures;

/// Lexicographic order of character sequences by code point; for strings it
/// is the byte order of their UTF-8 encodings, std's `Ord` for `String`.
pub open spec fn chars_lt(a: Seq<char>, b: Seq<char>) -> bool
    decreases a.len(),
{
    if a.len() == 0 {
        b.len() > 0
    } else if b.len() == 0 {
        false
    } else if a[0] != b[0] {
        (a[0] as u32) < (b[0] as u32)
    } else {
        chars_lt(a.drop_first(), b.drop_first())
    }
}

/// `a` sorts before `b` or equals it.
pub open spec fn chars_le(a: Seq<char>, b: Seq<char>) -> bool {
    a == b || chars_lt(a, b)
}

/// The order is strict and total.
pub proof fn lemma_chars_lt_total(a: Seq<char>, b: Seq<char>)
    ensures
        !chars_lt(a, a),
        chars_lt(a, b) ==> !chars_lt(b, a),
        a != b ==> chars_lt(a, b) || chars_lt(b, a),
    decreases a.len(),
{
    if a.len() > 0 && b.len() > 0 {
        lemma_chars_lt_total(a.drop_first(), b.drop_first());
        lemma_chars_lt_total(a.drop_first(), a.drop_first());
        if a[0] == b[0] && a != b {
            assert(a.drop_first() != b.drop_first()) by {
                if a.drop_first() == b.drop_first() {
                    assert(a =~= seq![a[0]] + a.drop_first());
                    assert(b =~= seq![b[0]] + b.drop_first());
                }
            }
        }
        if a[0] != b[0] {
            let x = a[0] as u32;
            let y = b[0] as u32;
            vstd::utf8::char_u32_cast(a[0], x);
            vstd::utf8::char_u32_cast(b[0], y);
            assert(x != y);
        }
    } else if a.len() > 0 {
        lemma_chars_lt_total(a.drop_first(), a.drop_first());
    } else if b.len() == 0 {
        assert(a =~= b);
    }
}

/// The order is transitive.
pub proof fn lemma_chars_lt_transitive(a: Seq<char>, b: Seq<char>, c: Seq<char>)
    requires
        chars_lt(a, b),
        chars_lt(b, c),
    ensures
        chars_lt(a, c),
    decreases a.len(),
{
    if a.len() > 0 && b.len() > 0 && c.len() > 0 && a[0] == b[0] && b[0] == c[0] {
        lemma_chars_lt_transitive(a.drop_first(), b.drop_first(), c.drop_first());
    }
}

/// A list of strings in non-decreasing order.
pub open spec fn sorted_chars(s: Seq<Seq<char>>) -> bool {
    forall|i: int, j: int| 0 <= i < j < s.len() ==> chars_le(#[trigger] s[i], #[trigger] s[j])
}

/// The position before which `x` goes: the first element greater than it.
pub open spec fn insert_position(s: Seq<Seq<char>>, x: Seq<char>) -> nat
    decreases s.len(),
{
    if s.len() == 0 {
        0
    } else if chars_lt(x, s[0]) {
        0
    } else {
        1 + insert_position(s.drop_first(), x)
    }
}

/// Insertion sort: each element is inserted after the earlier ones that
/// do not sort after it.
pub open spec fn sort_chars(s: Seq<Seq<char>>) -> Seq<Seq<char>>
    decreases s.len(),
{
    if s.len() == 0 {
        s
    } else {
        let rest = sort_chars(s.drop_last());
        rest.insert(insert_position(rest, s.last()) as int, s.last())
    }
}

proof fn lemma_insert_position(s: Seq<Seq<char>>, x: Seq<char>)
    ensures
        insert_position(s, x) <= s.len(),
        forall|k: int| 0 <= k < insert_position(s, x) ==> !chars_lt(x, #[trigger] s[k]),
        insert_position(s, x) < s.len() ==> chars_lt(x, s[insert_position(s, x) as int]),
    decreases s.len(),
{
    if s.len() > 0 && !chars_lt(x, s[0]) {
        lemma_insert_position(s.drop_first(), x);
        assert forall|k: int| 0 <= k < insert_position(s, x) implies !chars_lt(x, #[trigger] s[k]) by {
            if k > 0 {
                assert(s[k] == s.drop_first()[k - 1]);
            }
        }
    }
}

proof fn lemma_insert_keeps_sorted(s: Seq<Seq<char>>, x: Seq<char>)
    requires
        sorted_chars(s),
    ensures
        sorted_chars(s.insert(insert_position(s, x) as int, x)),
{
    lemma_insert_position(s, x);
    let p = insert_position(s, x) as int;
    let t = s.insert(p, x);
    assert forall|i: int, j: int| 0 <= i < j < t.len() implies chars_le(#[trigger] t[i], #[trigger] t[j]) by {
        if i < p && j < p {
            assert(t[i] == s[i] && t[j] == s[j]);
        } else if i < p && j == p {
            lemma_chars_lt_total(x, s[i]);
        } else if i < p && j > p {
            assert(t[i] == s[i] && t[j] == s[j - 1]);
        } else if i == p {
            assert(t[j] == s[j - 1]);
            assert(chars_lt(x, s[p]));
            if j - 1 > p {
                assert(chars_le(s[p], s[j - 1]));
                if s[p] != s[j - 1] {
                    lemma_chars_lt_transitive(x, s[p], s[j - 1]);
                }
            }
        } else {
            assert(t[i] == s[i - 1] && t[j] == s[j - 1]);
        }
    }
}

/// Sorting yields a sorted list holding the same strings, each as often.
pub proof fn lemma_sort_chars(s: Seq<Seq<char>>)
    ensures
        sorted_chars(sort_chars(s)),
        sort_chars(s).to_multiset() == s.to_multiset(),
    decreases s.len(),
{
    if s.len() > 0 {
        let rest = sort_chars(s.drop_last());
        lemma_sort_chars(s.drop_last());
        lemma_insert_keeps_sorted(rest, s.last());
        lemma_insert_position(rest, s.last());
        vstd::seq_lib::to_multiset_insert(rest, insert_position(rest, s.last()) as int, s.last());
        vstd::seq_lib::to_multiset_build(s.drop_last(), s.last());
        assert(s.drop_last().push(s.last()) =~= s);
    }
}

/// Whether `a` sorts strictly before `b`.
pub fn str_lt(a: &str, b: &str) -> (r: bool)
    ensures
        r == chars_lt(a@, b@),
{
    let x = str_chars(a);
    let y = str_chars(b);
    let mut k: usize = 0;
    assert(x@.skip(0) =~= x@);
    assert(y@.skip(0) =~= y@);
    loop
        invariant
            k <= x.len(),
            k <= y.len(),
            x@ == a@,
            y@ == b@,
            chars_lt(a@, b@) == chars_lt(x@.skip(k as int), y@.skip(k as int)),
        decreases x.len() - k,
    {
        if k == x.len() {
            return k < y.len();
        }
        if k == y.len() {
            return false;
        }
        assert(x@.skip(k as int)[0] == x@[k as int]);
        assert(y@.skip(k as int)[0] == y@[k as int]);
        if x[k] != y[k] {
            return (x[k] as u32) < (y[k] as u32);
        }
        assert(x@.skip(k as int).drop_first() =~= x@.skip(k + 1));
        assert(y@.skip(k as int).drop_first() =~= y@.skip(k + 1));
        k = k + 1;
    }
}

proof fn lemma_insert_position_is(s: Seq<Seq<char>>, x: Seq<char>, p: int)
    requires
        0 <= p <= s.len(),
        forall|k: int| 0 <= k < p ==> !chars_lt(x, #[trigger] s[k]),
        p == s.len() || chars_lt(x, s[p]),
    ensures
        insert_position(s, x) == p,
    decreases p,
{
    if p > 0 {
        assert forall|k: int| 0 <= k < p - 1 implies !chars_lt(x, #[trigger] s.drop_first()[k]) by {
            assert(s.drop_first()[k] == s[k + 1]);
        }
        lemma_insert_position_is(s.drop_first(), x, p - 1);
    }
}

/// Sorts strings in ascending order (what `Vec::<String>::sort` gives).
pub fn sort_strings(v: &Vec<String>) -> (r: Vec<String>)
    ensures
        strings_view(r@) == sort_chars(strings_view(v@)),
{
    let ghost vs = strings_view(v@);
    let mut out: Vec<String> = Vec::new();
    let mut i: usize = 0;
    assert(vs.take(0) =~= Seq::<Seq<char>>::empty());
    while i < v.len()
        invariant
            i <= v.len(),
            vs == strings_view(v@),
            strings_view(out@) == sort_chars(vs.take(i as int)),
        decreases v.len() - i,
    {
        let x = v[i].clone();
        let ghost os = strings_view(out@);
        let mut p: usize = 0;
        while p < out.len() && !str_lt(x.as_str(), out[p].as_str())
            invariant
                p <= out.len(),
                os == strings_view(out@),
                forall|k: int| 0 <= k < p ==> !chars_lt(x@, #[trigger] os[k]),
            decreases out.len() - p,
        {
            p = p + 1;
        }
        proof {
            lemma_insert_position_is(os, x@, p as int);
            assert(vs.take(i + 1).drop_last() =~= vs.take(i as int));
            assert(vs.take(i + 1).last() == x@);
        }
        out.insert(p, x);
        assert(strings_view(out@) =~= os.insert(p as int, vs[i as int]));
        i = i + 1;
    }
    assert(vs.take(v.len() as int) =~= vs);
    out
}

} // verus!
