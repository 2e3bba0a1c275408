use vstd::prelude::*;

use crate::palette::strings_view;
use crate::sorting::{
    chars_le, chars_lt, lemma_chars_lt_transitive, lemma_sort_chars, sort_strings,
    sorted_chars,
};
use crate::ai::{find_last, last_index_of};
use crate::text::{
    lowercase, matches_at, occurs_at, str_chars, str_eq, string_from_chars, to_lowercase, trim_str,
    trimmed,
};
use vstd::slice::slice_subrange;

verus! {

broadcast use vstd::seq_lib::group_to_multiset_ensures;

/// The pieces of a font listing between commas and line breaks (each line
/// of `fc-list : family` lists a family's names separated by commas).
pub open spec fn pieces(s: Seq<char>) -> Seq<Seq<char>>
    decreases s.len(),
{
    if s.len() == 0 {
        seq![Seq::empty()]
    } else {
        let p = pieces(s.drop_last());
        let c = s.last();
        if c == ',' || c == '\n' {
            p.push(Seq::empty())
        } else {
            p.update(p.len() - 1, p.last().push(c))
        }
    }
}

/// A listed family name worth offering: not empty, not hidden (a leading
/// dot).
pub open spec fn family_ok(n: Seq<char>) -> bool {
    n.len() > 0 && n[0] != '.'
}

/// The names of the pieces, trimmed, that are worth offering, in order.
pub open spec fn kept_families(ps: Seq<Seq<char>>) -> Seq<Seq<char>>
    decreases ps.len(),
{
    if ps.len() == 0 {
        Seq::empty()
    } else {
        let rest = kept_families(ps.drop_last());
        let t = trimmed(ps.last());
        if family_ok(t) {
            rest.push(t)
        } else {
            rest
        }
    }
}

/// The family names of an `fc-list : family` listing.
pub open spec fn fc_list_names(s: Seq<char>) -> Seq<Seq<char>> {
    kept_families(pieces(s))
}

/// Each name sorts strictly before the next: sorted, without repeats.
pub open spec fn strictly_sorted(s: Seq<Seq<char>>) -> bool {
    forall|i: int, j: int| 0 <= i < j < s.len() ==> chars_lt(#[trigger] s[i], #[trigger] s[j])
}

/// The font families of an `fc-list : family` listing, each once, sorted
/// (as a `BTreeSet` of the trimmed names would list them).
pub fn fc_list_families(stdout: &str) -> (r: Vec<String>)
    ensures
        strictly_sorted(strings_view(r@)),
        forall|n: Seq<char>| strings_view(r@).contains(n) <==> fc_list_names(stdout@).contains(n),
{
    let cs = str_chars(stdout);
    let mut names: Vec<String> = Vec::new();
    let mut cur: Vec<char> = Vec::new();
    let ghost mut done: Seq<Seq<char>> = Seq::empty();
    let mut i: usize = 0;
    assert(cs@.take(0) =~= Seq::<char>::empty());
    while i < cs.len()
        invariant
            i <= cs.len(),
            pieces(cs@.take(i as int)) == done.push(cur@),
            strings_view(names@) == kept_families(done),
        decreases cs.len() - i,
    {
        let c = cs[i];
        proof {
            assert(cs@.take(i + 1).drop_last() =~= cs@.take(i as int));
            assert(cs@.take(i + 1).last() == c);
        }
        if c == ',' || c == '\n' {
            let t = trim_str(string_from_chars(cur.as_slice()).as_str());
            let tc = str_chars(t.as_str());
            proof {
                assert(done.push(cur@).drop_last() =~= done);
            }
            if tc.len() > 0 && tc[0] != '.' {
                names.push(t);
            }
            proof {
                assert(strings_view(names@) =~= kept_families(done.push(cur@)));
                done = done.push(cur@);
            }
            cur = Vec::new();
            assert(pieces(cs@.take(i + 1)) =~= done.push(cur@));
        } else {
            let ghost before = cur@;
            cur.push(c);
            assert(pieces(cs@.take(i + 1)) =~= done.push(cur@));
        }
        i = i + 1;
    }
    assert(cs@.take(i as int) =~= stdout@);
    let t = trim_str(string_from_chars(cur.as_slice()).as_str());
    let tc = str_chars(t.as_str());
    proof {
        assert(done.push(cur@).drop_last() =~= done);
    }
    if tc.len() > 0 && tc[0] != '.' {
        names.push(t);
    }
    proof {
        assert(strings_view(names@) =~= kept_families(done.push(cur@)));
        lemma_sort_chars(strings_view(names@));
    }
    let sorted = sort_strings(&names);
    let ghost sv = strings_view(sorted@);
    let mut out: Vec<String> = Vec::new();
    let mut k: usize = 0;
    while k < sorted.len()
        invariant
            k <= sorted.len(),
            sv == strings_view(sorted@),
            sorted_chars(sv),
            strictly_sorted(strings_view(out@)),
            forall|n: Seq<char>| strings_view(out@).contains(n) <==> sv.take(k as int).contains(n),
            k > 0 ==> out@.len() > 0 && strings_view(out@).last() == sv[k - 1],
            out@.len() <= k,
        decreases sorted.len() - k,
    {
        let ghost ov = strings_view(out@);
        let fresh = out.len() == 0 || !str_eq(out[out.len() - 1].as_str(), sorted[k].as_str());
        if fresh {
            out.push(sorted[k].clone());
            proof {
                let nv = strings_view(out@);
                assert(nv =~= ov.push(sv[k as int]));
                if k > 0 {
                    assert(chars_le(sv[k - 1], sv[k as int]));
                    assert(chars_lt(ov.last(), sv[k as int]));
                }
                assert forall|a: int, b: int| 0 <= a < b < nv.len() implies chars_lt(
                    #[trigger] nv[a],
                    #[trigger] nv[b],
                ) by {
                    if b < nv.len() - 1 {
                        assert(nv[a] == ov[a] && nv[b] == ov[b]);
                    } else {
                        assert(nv[a] == ov[a]);
                        assert(nv[b] == sv[k as int]);
                        if a < ov.len() - 1 {
                            lemma_chars_lt_transitive(ov[a], ov.last(), sv[k as int]);
                        }
                    }
                }
            }
        }
        proof {
            let nv = strings_view(out@);
            let t0 = sv.take(k as int);
            let t1 = sv.take(k + 1);
            assert(t1 =~= t0.push(sv[k as int]));
            assert forall|n: Seq<char>| nv.contains(n) <==> t1.contains(n) by {
                if nv.contains(n) {
                    let a = choose|a: int| 0 <= a < nv.len() && nv[a] == n;
                    if fresh && a == nv.len() - 1 {
                        assert(t1[k as int] == n);
                    } else {
                        assert(ov[a] == n);
                        assert(ov.contains(n));
                        assert(t0.contains(n));
                        let b = choose|b: int| 0 <= b < t0.len() && t0[b] == n;
                        assert(t1[b] == n);
                    }
                }
                if t1.contains(n) {
                    let b = choose|b: int| 0 <= b < t1.len() && t1[b] == n;
                    if b == k {
                        if fresh {
                            assert(nv[nv.len() - 1] == n);
                        } else {
                            assert(ov[ov.len() - 1] == n);
                            assert(nv[ov.len() - 1] == n);
                        }
                    } else {
                        assert(t0[b] == n);
                        assert(t0.contains(n));
                        assert(ov.contains(n));
                        let a = choose|a: int| 0 <= a < ov.len() && ov[a] == n;
                        assert(nv[a] == n);
                    }
                }
            }
        }
        k = k + 1;
    }
    proof {
        let nv = strings_view(names@);
        assert(sv.take(k as int) =~= sv);
        assert forall|n: Seq<char>| sv.contains(n) <==> nv.contains(n) by {
            assert(sv.to_multiset().count(n) == nv.to_multiset().count(n));
        }
        assert(nv == fc_list_names(stdout@));
    }
    out
}

/// The families offered when `fc-list` is not available.
pub open spec fn linux_fallback_fonts() -> Seq<Seq<char>> {
    seq![
        "DejaVu Sans"@,
        "DejaVu Sans Mono"@,
        "Fira Code"@,
        "JetBrains Mono"@,
        "Hack"@,
        "Ubuntu"@,
        "Ubuntu Mono"@,
        "Liberation Mono"@,
        "Liberation Sans"@,
        "Liberation Serif"@,
        "monospace"@,
        "sans-serif"@,
    ]
}

fn fallback_linux() -> (r: Vec<String>)
    ensures
        strings_view(r@) == linux_fallback_fonts(),
{
    let r = vec![
        "DejaVu Sans".to_owned(),
        "DejaVu Sans Mono".to_owned(),
        "Fira Code".to_owned(),
        "JetBrains Mono".to_owned(),
        "Hack".to_owned(),
        "Ubuntu".to_owned(),
        "Ubuntu Mono".to_owned(),
        "Liberation Mono".to_owned(),
        "Liberation Sans".to_owned(),
        "Liberation Serif".to_owned(),
        "monospace".to_owned(),
        "sans-serif".to_owned(),
    ];
    assert(strings_view(r@) =~= linux_fallback_fonts());
    r
}

/// The font families to offer on Linux, from the output of a successful
/// `fc-list : family` run: its families, sorted and each once, or the
/// fallback list when it lists none (or did not run).
pub fn linux_font_families(fc_output: Option<&str>) -> (r: Vec<String>)
    ensures
        match fc_output {
            Some(o) if fc_list_names(o@).len() > 0 => {
                &&& strictly_sorted(strings_view(r@))
                &&& forall|n: Seq<char>| strings_view(r@).contains(n) <==> fc_list_names(o@).contains(n)
            },
            _ => strings_view(r@) == linux_fallback_fonts(),
        },
{
    match fc_output {
        Some(o) => {
            let fams = fc_list_families(o);
            if fams.len() > 0 {
                proof {
                    let fv = strings_view(fams@);
                    assert(fv.contains(fv[0]));
                    assert(fc_list_names(o@).contains(fv[0]));
                }
                return fams;
            }
            proof {
                if fc_list_names(o@).len() > 0 {
                    assert(fc_list_names(o@).contains(fc_list_names(o@)[0]));
                }
            }
            fallback_linux()
        },
        None => fallback_linux(),
    }
}


/// The lines of a listing: the pieces between line breaks.
pub open spec fn line_pieces(s: Seq<char>) -> Seq<Seq<char>>
    decreases s.len(),
{
    if s.len() == 0 {
        seq![Seq::empty()]
    } else {
        let p = line_pieces(s.drop_last());
        let c = s.last();
        if c == '\n' {
            p.push(Seq::empty())
        } else {
            p.update(p.len() - 1, p.last().push(c))
        }
    }
}

/// The first position from `i` on where `pat` occurs in `t`, or -1.
pub open spec fn first_occurrence_from(t: Seq<char>, pat: Seq<char>, i: int) -> int
    decreases t.len() + 1 - i,
{
    if i < 0 || i + pat.len() > t.len() {
        -1
    } else if occurs_at(t, pat, i) {
        i
    } else {
        first_occurrence_from(t, pat, i + 1)
    }
}

proof fn lemma_first_occurrence_is(t: Seq<char>, pat: Seq<char>, i0: int, i: int)
    requires
        0 <= i0 <= i,
        forall|j: int| i0 <= j < i ==> !occurs_at(t, pat, j),
        i + pat.len() > t.len() || occurs_at(t, pat, i),
    ensures
        first_occurrence_from(t, pat, i0) == (if i + pat.len() > t.len() {
            -1
        } else {
            i
        }),
    decreases i - i0,
{
    if i0 < i {
        lemma_first_occurrence_is(t, pat, i0 + 1, i);
    }
}

/// The font name of a line of `reg query` on the fonts key: the value's
/// name before its type column (`    REG_`), trimmed, without a trailing
/// note in parentheses such as `(TrueType)`; none for blank lines, key
/// paths (`HKEY_...`) and empty or hidden names.
pub open spec fn reg_font_name(line: Seq<char>) -> Option<Seq<char>> {
    let t = trimmed(line);
    if t.len() == 0 || occurs_at(t, "HKEY_"@, 0) {
        None
    } else {
        let f = first_occurrence_from(t, "    REG_"@, 0);
        let e = if f >= 0 {
            t.take(f)
        } else {
            t
        };
        let n = trimmed(e);
        let i = last_index_of(n, '(');
        let name = if i >= 0 {
            trimmed(n.take(i))
        } else {
            n
        };
        if family_ok(name) {
            Some(name)
        } else {
            None
        }
    }
}

/// The font names of the lines, in order.
pub open spec fn reg_names(lines: Seq<Seq<char>>) -> Seq<Seq<char>>
    decreases lines.len(),
{
    if lines.len() == 0 {
        Seq::empty()
    } else {
        let rest = reg_names(lines.drop_last());
        match reg_font_name(lines.last()) {
            Some(n) => rest.push(n),
            None => rest,
        }
    }
}

/// Where `x` goes in `s` sorted by lower-case name: before the first
/// element whose lower-case name is greater (after equal ones).
pub open spec fn lower_insert_position(s: Seq<Seq<char>>, x: Seq<char>) -> nat
    decreases s.len(),
{
    if s.len() == 0 {
        0
    } else if chars_lt(lowercase(x), lowercase(s[0])) {
        0
    } else {
        1 + lower_insert_position(s.drop_first(), x)
    }
}

/// A stable sort by lower-case name (what `sort_by` comparing lower-cased
/// names gives).
pub open spec fn sort_by_lowercase(s: Seq<Seq<char>>) -> Seq<Seq<char>>
    decreases s.len(),
{
    if s.len() == 0 {
        s
    } else {
        let rest = sort_by_lowercase(s.drop_last());
        rest.insert(lower_insert_position(rest, s.last()) as int, s.last())
    }
}

/// The list without consecutive repeats (what `Vec::dedup` keeps).
pub open spec fn dedup_adjacent(s: Seq<Seq<char>>) -> Seq<Seq<char>>
    decreases s.len(),
{
    if s.len() == 0 {
        s
    } else {
        let rest = dedup_adjacent(s.drop_last());
        if rest.len() > 0 && rest.last() == s.last() {
            rest
        } else {
            rest.push(s.last())
        }
    }
}

/// The font families of a `reg query` listing of the fonts key, sorted by
/// lower-case name, consecutive repeats dropped.
pub open spec fn reg_font_families(s: Seq<char>) -> Seq<Seq<char>> {
    dedup_adjacent(sort_by_lowercase(reg_names(line_pieces(s))))
}

fn starts_with_key(t: &Vec<char>) -> (r: bool)
    ensures
        r == occurs_at(t@, "HKEY_"@, 0),
{
    let pre = "HKEY_";
    let pc = str_chars(pre);
    if pc.len() > t.len() {
        return false;
    }
    matches_at(t, &pc, 0)
}

fn reg_line_name(line: &Vec<char>) -> (r: Option<String>)
    ensures
        r matches Some(n) ==> reg_font_name(line@) == Some(n@),
        r is None ==> reg_font_name(line@) is None,
{
    let t = trim_str(string_from_chars(line.as_slice()).as_str());
    let tc = str_chars(t.as_str());
    if tc.len() == 0 || starts_with_key(&tc) {
        return None;
    }
    let pat = str_chars("    REG_");
    proof {
        reveal_strlit("    REG_");
    }
    let mut i: usize = 0;
    let mut found: Option<usize> = None;
    while found.is_none() && pat.len() <= tc.len() && i <= tc.len() - pat.len()
        invariant
            tc@ == t@,
            i <= tc.len() + 1,
            pat.len() > 0,
            pat@ == "    REG_"@,
            forall|j: int| 0 <= j < i ==> !occurs_at(tc@, pat@, j),
            found matches Some(f) ==> f == i && occurs_at(tc@, pat@, f as int),
        decreases tc.len() + 1 - i + (if found is None { 1int } else { 0int }),
    {
        if matches_at(&tc, &pat, i) {
            found = Some(i);
        } else {
            i = i + 1;
        }
    }
    proof {
        lemma_first_occurrence_is(tc@, pat@, 0, i as int);
    }
    let e: Vec<char> = match found {
        Some(f) => {
            let pre = slice_subrange(tc.as_slice(), 0, f);
            assert(pre@ =~= tc@.take(f as int));
            let mut v: Vec<char> = Vec::new();
            let mut k: usize = 0;
            while k < f
                invariant
                    k <= f,
                    pre@ == tc@.take(f as int),
                    f <= tc.len(),
                    v@ == tc@.take(k as int),
                decreases f - k,
            {
                v.push(tc[k]);
                k = k + 1;
                assert(v@ =~= tc@.take(k as int));
            }
            v
        },
        None => tc,
    };
    let n = trim_str(string_from_chars(e.as_slice()).as_str());
    let nc = str_chars(n.as_str());
    let name = match find_last(&nc, nc.len(), '(') {
        Some(i) => {
            let pre = slice_subrange(nc.as_slice(), 0, i);
            proof {
                assert(pre@ =~= nc@.take(i as int));
                assert(nc@.take(nc.len() as int) =~= nc@);
            }
            trim_str(string_from_chars(pre).as_str())
        },
        None => {
            proof {
                assert(nc@.take(nc.len() as int) =~= nc@);
            }
            n
        },
    };
    let mc = str_chars(name.as_str());
    if mc.len() > 0 && mc[0] != '.' {
        Some(name)
    } else {
        None
    }
}

proof fn lemma_lower_insert_position_is(s: Seq<Seq<char>>, x: Seq<char>, p: int)
    requires
        0 <= p <= s.len(),
        forall|k: int| 0 <= k < p ==> !chars_lt(lowercase(x), lowercase(#[trigger] s[k])),
        p == s.len() || chars_lt(lowercase(x), lowercase(s[p])),
    ensures
        lower_insert_position(s, x) == p,
    decreases p,
{
    if p > 0 {
        assert forall|k: int| 0 <= k < p - 1 implies !chars_lt(
            lowercase(x),
            lowercase(#[trigger] s.drop_first()[k]),
        ) by {
            assert(s.drop_first()[k] == s[k + 1]);
        }
        lemma_lower_insert_position_is(s.drop_first(), x, p - 1);
    }
}

fn sort_by_lower(v: &Vec<String>) -> (r: Vec<String>)
    ensures
        strings_view(r@) == sort_by_lowercase(strings_view(v@)),
{
    let ghost vs = strings_view(v@);
    let mut out: Vec<String> = Vec::new();
    let mut keys: Vec<String> = Vec::new();
    let mut i: usize = 0;
    assert(vs.take(0) =~= Seq::<Seq<char>>::empty());
    while i < v.len()
        invariant
            i <= v.len(),
            vs == strings_view(v@),
            strings_view(out@) == sort_by_lowercase(vs.take(i as int)),
            keys.len() == out.len(),
            forall|k: int| 0 <= k < keys.len() ==> #[trigger] keys@[k]@ == lowercase(out@[k]@),
        decreases v.len() - i,
    {
        let x = v[i].clone();
        let kx = to_lowercase(x.as_str());
        let ghost os = strings_view(out@);
        let mut p: usize = 0;
        while p < out.len() && !crate::sorting::str_lt(kx.as_str(), keys[p].as_str())
            invariant
                p <= out.len(),
                keys.len() == out.len(),
                os == strings_view(out@),
                kx@ == lowercase(x@),
                forall|k: int| 0 <= k < keys.len() ==> #[trigger] keys@[k]@ == lowercase(out@[k]@),
                forall|k: int| 0 <= k < p ==> !chars_lt(lowercase(x@), lowercase(#[trigger] os[k])),
            decreases out.len() - p,
        {
            assert(keys@[p as int]@ == lowercase(os[p as int]));
            p = p + 1;
        }
        proof {
            if p < out.len() {
                assert(keys@[p as int]@ == lowercase(os[p as int]));
            }
            lemma_lower_insert_position_is(os, x@, p as int);
            assert(vs.take(i + 1).drop_last() =~= vs.take(i as int));
            assert(vs.take(i + 1).last() == x@);
        }
        let ghost old_keys = keys@;
        let ghost old_out = out@;
        out.insert(p, x);
        keys.insert(p, kx);
        proof {
            assert(strings_view(out@) =~= os.insert(p as int, vs[i as int]));
            assert forall|k: int| 0 <= k < keys.len() implies #[trigger] keys@[k]@ == lowercase(out@[k]@) by {
                if k < p {
                    assert(keys@[k] == old_keys[k] && out@[k] == old_out[k]);
                } else if k > p {
                    assert(keys@[k] == old_keys[k - 1] && out@[k] == old_out[k - 1]);
                }
            }
        }
        i = i + 1;
    }
    assert(vs.take(v.len() as int) =~= vs);
    out
}

fn dedup_strings(v: &Vec<String>) -> (r: Vec<String>)
    ensures
        strings_view(r@) == dedup_adjacent(strings_view(v@)),
{
    let ghost vs = strings_view(v@);
    let mut out: Vec<String> = Vec::new();
    let mut i: usize = 0;
    assert(vs.take(0) =~= Seq::<Seq<char>>::empty());
    while i < v.len()
        invariant
            i <= v.len(),
            vs == strings_view(v@),
            strings_view(out@) == dedup_adjacent(vs.take(i as int)),
        decreases v.len() - i,
    {
        proof {
            assert(vs.take(i + 1).drop_last() =~= vs.take(i as int));
            assert(vs.take(i + 1).last() == vs[i as int]);
        }
        let n = out.len();
        if n == 0 || !str_eq(out[n - 1].as_str(), v[i].as_str()) {
            let ghost ov = strings_view(out@);
            out.push(v[i].clone());
            assert(strings_view(out@) =~= ov.push(vs[i as int]));
        }
        i = i + 1;
    }
    assert(vs.take(v.len() as int) =~= vs);
    out
}

/// The font families of a `reg query` listing of the fonts key (see
/// `reg_font_families`).
pub fn reg_query_families(stdout: &str) -> (r: Vec<String>)
    ensures
        strings_view(r@) == reg_font_families(stdout@),
{
    let cs = str_chars(stdout);
    let mut names: Vec<String> = Vec::new();
    let mut cur: Vec<char> = Vec::new();
    let ghost mut done: Seq<Seq<char>> = Seq::empty();
    let mut i: usize = 0;
    assert(cs@.take(0) =~= Seq::<char>::empty());
    while i < cs.len()
        invariant
            i <= cs.len(),
            line_pieces(cs@.take(i as int)) == done.push(cur@),
            strings_view(names@) == reg_names(done),
        decreases cs.len() - i,
    {
        let c = cs[i];
        proof {
            assert(cs@.take(i + 1).drop_last() =~= cs@.take(i as int));
            assert(cs@.take(i + 1).last() == c);
        }
        if c == '\n' {
            proof {
                assert(done.push(cur@).drop_last() =~= done);
            }
            match reg_line_name(&cur) {
                Some(n) => {
                    names.push(n);
                },
                None => {},
            }
            proof {
                assert(strings_view(names@) =~= reg_names(done.push(cur@)));
                done = done.push(cur@);
            }
            cur = Vec::new();
            assert(line_pieces(cs@.take(i + 1)) =~= done.push(cur@));
        } else {
            cur.push(c);
            assert(line_pieces(cs@.take(i + 1)) =~= done.push(cur@));
        }
        i = i + 1;
    }
    assert(cs@.take(i as int) =~= stdout@);
    proof {
        assert(done.push(cur@).drop_last() =~= done);
    }
    match reg_line_name(&cur) {
        Some(n) => {
            names.push(n);
        },
        None => {},
    }
    assert(strings_view(names@) =~= reg_names(done.push(cur@)));
    let sorted = sort_by_lower(&names);
    dedup_strings(&sorted)
}

/// The families offered on Windows when the registry lists none.
pub open spec fn windows_fallback_fonts() -> Seq<Seq<char>> {
    seq![
        "Arial"@,
        "Calibri"@,
        "Cambria"@,
        "Cascadia Code"@,
        "Cascadia Mono"@,
        "Comic Sans MS"@,
        "Consolas"@,
        "Courier New"@,
        "Fira Code"@,
        "Georgia"@,
        "Impact"@,
        "JetBrains Mono"@,
        "Lucida Console"@,
        "Lucida Sans Unicode"@,
        "Microsoft Sans Serif"@,
        "Segoe UI"@,
        "Segoe UI Variable"@,
        "Tahoma"@,
        "Times New Roman"@,
        "Trebuchet MS"@,
        "Verdana"@,
        "monospace"@,
    ]
}

fn fallback_windows() -> (r: Vec<String>)
    ensures
        strings_view(r@) == windows_fallback_fonts(),
{
    let r = vec![
        "Arial".to_owned(),
        "Calibri".to_owned(),
        "Cambria".to_owned(),
        "Cascadia Code".to_owned(),
        "Cascadia Mono".to_owned(),
        "Comic Sans MS".to_owned(),
        "Consolas".to_owned(),
        "Courier New".to_owned(),
        "Fira Code".to_owned(),
        "Georgia".to_owned(),
        "Impact".to_owned(),
        "JetBrains Mono".to_owned(),
        "Lucida Console".to_owned(),
        "Lucida Sans Unicode".to_owned(),
        "Microsoft Sans Serif".to_owned(),
        "Segoe UI".to_owned(),
        "Segoe UI Variable".to_owned(),
        "Tahoma".to_owned(),
        "Times New Roman".to_owned(),
        "Trebuchet MS".to_owned(),
        "Verdana".to_owned(),
        "monospace".to_owned(),
    ];
    assert(strings_view(r@) =~= windows_fallback_fonts());
    r
}

/// The font families to offer on Windows, from the output of a successful
/// `reg query` of the fonts key: its families (see `reg_font_families`),
/// or the fallback list when it lists none (or did not run).
pub fn windows_font_families(reg_output: Option<&str>) -> (r: Vec<String>)
    ensures
        match reg_output {
            Some(o) if reg_font_families(o@).len() > 0 => strings_view(r@) == reg_font_families(o@),
            _ => strings_view(r@) == windows_fallback_fonts(),
        },
{
    match reg_output {
        Some(o) => {
            let fams = reg_query_families(o);
            if fams.len() > 0 {
                return fams;
            }
            fallback_windows()
        },
        None => fallback_windows(),
    }
}

} // verus!
