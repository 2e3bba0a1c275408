use vstd::prelude::*;

use crate::text::{lowercase, seq_contains, seq_ends_with, str_contains, str_ends_with, to_lowercase};

verus! {

/// A font family name that names a Nerd Font (case-insensitive "nerd").
pub open spec fn is_nerd_family(name: Seq<char>) -> bool {
    seq_contains(lowercase(name), "nerd"@)
}

/// A Nerd Font family whose lowercased name ends with "mono".
pub open spec fn is_mono_nerd_family(name: Seq<char>) -> bool {
    is_nerd_family(name) && seq_ends_with(lowercase(name), "mono"@)
}

/// The first name of `names` that is a Nerd Font (mono ones only, if `mono`).
pub open spec fn first_nerd_family(names: Seq<Seq<char>>, mono: bool) -> Option<Seq<char>>
    decreases names.len(),
{
    if names.len() == 0 {
        None
    } else {
        let earlier = first_nerd_family(names.drop_last(), mono);
        if earlier is Some {
            earlier
        } else if (if mono {
            is_mono_nerd_family(names.last())
        } else {
            is_nerd_family(names.last())
        }) {
            Some(names.last())
        } else {
            None
        }
    }
}

/// The preferred Nerd Font: the first `*Mono` one, else the first one.
pub open spec fn spec_find_nerd_font_family(names: Seq<Seq<char>>) -> Option<Seq<char>> {
    match first_nerd_family(names, true) {
        Some(n) => Some(n),
        None => first_nerd_family(names, false),
    }
}

/// Whether `name` is what `first_nerd_family` looks for.
pub open spec fn nerd_match(name: Seq<char>, mono: bool) -> bool {
    if mono {
        is_mono_nerd_family(name)
    } else {
        is_nerd_family(name)
    }
}

/// `first_nerd_family` is `None` exactly when no name matches, and otherwise
/// the name at the first index that matches.
pub proof fn lemma_first_nerd_family(names: Seq<Seq<char>>, mono: bool)
    ensures
        first_nerd_family(names, mono) is None <==> (forall|i: int|
            0 <= i < names.len() ==> !nerd_match(#[trigger] names[i], mono)),
        first_nerd_family(names, mono) matches Some(n) ==> exists|i: int|
            0 <= i < names.len() && names[i] == n && nerd_match(n, mono) && (forall|j: int|
                0 <= j < i ==> !nerd_match(#[trigger] names[j], mono)),
    decreases names.len(),
{
    if names.len() > 0 {
        let init = names.drop_last();
        lemma_first_nerd_family(init, mono);
        assert forall|i: int| 0 <= i < init.len() implies init[i] == names[i] by {}
        let last: int = names.len() - 1;
        if first_nerd_family(init, mono) is None && nerd_match(names.last(), mono) {
            assert(names[last] == names.last());
            assert(forall|j: int| 0 <= j < last ==> init[j] == names[j]);
        }
        if let Some(n) = first_nerd_family(init, mono) {
            let i = choose|i: int|
                0 <= i < init.len() && init[i] == n && nerd_match(n, mono) && (forall|j: int|
                    0 <= j < i ==> !nerd_match(#[trigger] init[j], mono));
            assert(names[i] == n);
            assert(forall|j: int| 0 <= j < i ==> init[j] == names[j]);
        }
        if first_nerd_family(names, mono) is None {
            assert forall|i: int| 0 <= i < names.len() implies !nerd_match(
                #[trigger] names[i],
                mono,
            ) by {
                if i < last {
                    assert(init[i] == names[i]);
                }
            }
        }
    }
}

/// The chosen Nerd Font is `None` exactly when no family name contains
/// "nerd" (case-insensitively); otherwise it is one of the names, a Nerd Font,
/// and a `*Mono` one whenever the list holds any.
pub proof fn lemma_nerd_font_choice(names: Seq<Seq<char>>)
    ensures
        spec_find_nerd_font_family(names) is None <==> (forall|i: int|
            0 <= i < names.len() ==> !is_nerd_family(#[trigger] names[i])),
        spec_find_nerd_font_family(names) matches Some(n) ==> names.contains(n) && is_nerd_family(n),
        (exists|i: int| 0 <= i < names.len() && is_mono_nerd_family(#[trigger] names[i]))
            ==> (spec_find_nerd_font_family(names) matches Some(n) && is_mono_nerd_family(n)),
{
    lemma_first_nerd_family(names, true);
    lemma_first_nerd_family(names, false);
    if spec_find_nerd_font_family(names) is None {
        assert forall|i: int| 0 <= i < names.len() implies !is_nerd_family(#[trigger] names[i]) by {
            assert(!nerd_match(names[i], false));
        }
    }
    if forall|i: int| 0 <= i < names.len() ==> !is_nerd_family(#[trigger] names[i]) {
        assert forall|i: int| 0 <= i < names.len() implies !nerd_match(#[trigger] names[i], true) by {
            assert(!is_nerd_family(names[i]));
        }
        assert forall|i: int| 0 <= i < names.len() implies !nerd_match(#[trigger] names[i], false) by {
            assert(!is_nerd_family(names[i]));
        }
    }
    if exists|i: int| 0 <= i < names.len() && is_mono_nerd_family(#[trigger] names[i]) {
        let k = choose|i: int| 0 <= i < names.len() && is_mono_nerd_family(#[trigger] names[i]);
        assert(nerd_match(names[k], true));
    }
}

/// The names of a list of font families, by their characters.
pub open spec fn family_names(names: Seq<String>) -> Seq<Seq<char>> {
    names.map_values(|s: String| s@)
}

/// Finds an installed Nerd Font for icon fallback. Prefers `*Mono` variants
/// (suffix match on the lowercased name), else the first match; `None` when
/// no family name contains "nerd", case-insensitively.
pub fn find_nerd_font_family(names: &[String]) -> (r: Option<String>)
    ensures
        r matches Some(s) ==> spec_find_nerd_font_family(family_names(names@)) == Some(s@),
        r is None ==> spec_find_nerd_font_family(family_names(names@)) is None,
{
    let ghost all = family_names(names@);
    let mut best_mono: Option<String> = None;
    let mut best_any: Option<String> = None;
    let mut i: usize = 0;
    while i < names.len()
        invariant
            i <= names.len(),
            all == family_names(names@),
            best_mono matches Some(s) ==> first_nerd_family(all.take(i as int), true) == Some(s@),
            best_mono is None ==> first_nerd_family(all.take(i as int), true) is None,
            best_any matches Some(s) ==> first_nerd_family(all.take(i as int), false) == Some(s@),
            best_any is None ==> first_nerd_family(all.take(i as int), false) is None,
        decreases names.len() - i,
    {
        let lower = to_lowercase(names[i].as_str());
        let nerd = str_contains(lower.as_str(), "nerd");
        let mono = nerd && str_ends_with(lower.as_str(), "mono");
        assert(all.take(i + 1).drop_last() =~= all.take(i as int));
        assert(all.take(i + 1).last() == names@[i as int]@);
        if mono && best_mono.is_none() {
            best_mono = Some(names[i].clone());
        }
        if nerd && best_any.is_none() {
            best_any = Some(names[i].clone());
        }
        i = i + 1;
    }
    assert(all.take(names.len() as int) =~= all);
    match best_mono {
        Some(s) => Some(s),
        None => best_any,
    }
}

} // verus!
