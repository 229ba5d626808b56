//! Localization dictionaries: locale to text, each locale at most once.

use vstd::prelude::*;

verus! {

/// The dictionary that a list of (locale, text) pairs builds when the pairs
/// are inserted one after another: a later pair for a locale replaces the
/// text of an earlier one.
pub open spec fn entries_map(entries: Seq<(Seq<char>, Seq<char>)>) -> Map<Seq<char>, Seq<char>>
    decreases entries.len(),
{
    if entries.len() == 0 {
        Map::empty()
    } else {
        entries_map(entries.drop_last()).insert(entries.last().0, entries.last().1)
    }
}

/// No locale occurs twice among the pairs.
pub open spec fn keys_distinct(entries: Seq<(Seq<char>, Seq<char>)>) -> bool {
    forall|i: int, j: int|
        0 <= i < entries.len() && 0 <= j < entries.len() && i != j ==> #[trigger] entries[i].0
            != #[trigger] entries[j].0
}

/// Replacing the text of one entry of a list with distinct locales replaces
/// that locale's text in the dictionary.
proof fn lemma_update_text(entries: Seq<(Seq<char>, Seq<char>)>, j: int, text: Seq<char>)
    requires
        keys_distinct(entries),
        0 <= j < entries.len(),
    ensures
        entries_map(entries.update(j, (entries[j].0, text))) == entries_map(entries).insert(
            entries[j].0,
            text,
        ),
    decreases entries.len(),
{
    let updated = entries.update(j, (entries[j].0, text));
    let last = entries.len() - 1;
    if j == last {
        assert(updated.drop_last() =~= entries.drop_last());
        assert(entries_map(updated) =~= entries_map(entries).insert(entries[j].0, text));
    } else {
        let shorter = entries.drop_last();
        assert(keys_distinct(shorter)) by {
            assert forall|a: int, b: int|
                0 <= a < shorter.len() && 0 <= b < shorter.len() && a != b implies #[trigger] shorter[a].0
                != #[trigger] shorter[b].0 by {
                assert(shorter[a] == entries[a]);
                assert(shorter[b] == entries[b]);
            }
        }
        lemma_update_text(shorter, j, text);
        assert(updated.drop_last() =~= shorter.update(j, (shorter[j].0, text)));
        assert(entries[last].0 != entries[j].0);
        assert(updated.last() == entries.last());
        assert(entries_map(updated) =~= entries_map(entries).insert(entries[j].0, text));
    }
}

/// Builds the dictionary of `entries` as a list with distinct locales:
/// a later pair for a locale replaces the text of an earlier one.
pub fn collect_localizations(entries: Vec<(String, String)>) -> (out: Vec<(String, String)>)
    ensures
        keys_distinct(out.deep_view()),
        entries_map(out.deep_view()) == entries_map(entries.deep_view()),
{
    let mut out: Vec<(String, String)> = Vec::new();
    let n = entries.len();
    for i in 0..n
        invariant
            n == entries.len(),
            keys_distinct(out.deep_view()),
            entries_map(out.deep_view()) == entries_map(entries.deep_view().take(i as int)),
    {
        let locale = entries[i].0.clone();
        let text = entries[i].1.clone();
        let ghost before = out.deep_view();
        assert(entries.deep_view().take(i + 1).drop_last() =~= entries.deep_view().take(i as int));
        assert(entries.deep_view()[i as int] == (locale@, text@));
        let mut j: usize = 0;
        while j < out.len()
            invariant
                0 <= j <= out.len(),
                out.deep_view() == before,
                forall|k: int| 0 <= k < j ==> before[k].0 != locale@,
            ensures
                0 <= j <= out.len(),
                forall|k: int| 0 <= k < j ==> before[k].0 != locale@,
                j < out.len() ==> before[j as int].0 == locale@,
            decreases out.len() - j,
        {
            if out[j].0 == locale {
                break;
            }
            j = j + 1;
        }
        if j < out.len() {
            proof {
                lemma_update_text(before, j as int, text@);
            }
            out.set(j, (locale, text));
            assert(out.deep_view() =~= before.update(j as int, (before[j as int].0, text@)));
        } else {
            out.push((locale, text));
            assert(out.deep_view() =~= before.push((locale@, text@)));
            assert(out.deep_view().drop_last() =~= before);
        }
    }
    assert(entries.deep_view().take(n as int) =~= entries.deep_view());
    out
}

/// Pairs after position `j` that are not for `locale` leave its entry in
/// the dictionary as the first `j` pairs made it.
proof fn lemma_tail_without_locale(entries: Seq<(Seq<char>, Seq<char>)>, j: int, locale: Seq<char>)
    requires
        0 <= j <= entries.len(),
        forall|k: int| j <= k < entries.len() ==> entries[k].0 != locale,
    ensures
        entries_map(entries).dom().contains(locale) == entries_map(entries.take(j)).dom().contains(
            locale,
        ),
        entries_map(entries)[locale] == entries_map(entries.take(j))[locale],
    decreases entries.len() - j,
{
    if j < entries.len() {
        let shorter = entries.drop_last();
        lemma_tail_without_locale(shorter, j, locale);
        assert(shorter.take(j) =~= entries.take(j));
    } else {
        assert(entries.take(j) =~= entries);
    }
}

/// Looks up the text that the pairs give `locale`: that of the last pair
/// for it, if there is one.
pub fn lookup_localization<'a>(entries: &'a Vec<(String, String)>, locale: &str) -> (r: Option<
    &'a String,
>)
    ensures
        r is Some <==> entries_map(entries.deep_view()).dom().contains(locale@),
        r matches Some(text) ==> text@ == entries_map(entries.deep_view())[locale@],
{
    let ghost dv = entries.deep_view();
    let wanted = locale.to_owned();
    let mut j = entries.len();
    while j > 0
        invariant
            0 <= j <= entries.len(),
            dv == entries.deep_view(),
            wanted@ == locale@,
            forall|k: int| j <= k < dv.len() ==> dv[k].0 != locale@,
        decreases j,
    {
        let i = j - 1;
        assert(dv[i as int] == (entries[i as int].0@, entries[i as int].1@));
        if entries[i].0 == wanted {
            proof {
                lemma_tail_without_locale(dv, j as int, locale@);
                assert(dv.take(j as int).drop_last() =~= dv.take(i as int));
                assert(dv.take(j as int).last() == dv[i as int]);
            }
            return Some(&entries[i].1);
        }
        j = i;
    }
    proof {
        lemma_tail_without_locale(dv, 0, locale@);
        assert(dv.take(0) =~= Seq::<(Seq<char>, Seq<char>)>::empty());
    }
    None
}

/// Inserting the pairs of `first` and then those of `second` builds the
/// dictionary of `first` overridden, locale by locale, by that of `second`.
pub proof fn law_later_pairs_override(
    first: Seq<(Seq<char>, Seq<char>)>,
    second: Seq<(Seq<char>, Seq<char>)>,
)
    ensures
        entries_map(first + second) == entries_map(first).union_prefer_right(
            entries_map(second),
        ),
    decreases second.len(),
{
    if second.len() == 0 {
        assert(first + second =~= first);
        assert(entries_map(first).union_prefer_right(entries_map(second)) =~= entries_map(first));
    } else {
        law_later_pairs_override(first, second.drop_last());
        assert((first + second).drop_last() =~= first + second.drop_last());
        assert((first + second).last() == second.last());
        assert(entries_map(first + second) =~= entries_map(first).union_prefer_right(
            entries_map(second),
        ));
    }
}

/// Reading a locale back gives the text of the last pair for it.
pub proof fn law_lookup_gives_last_pair(entries: Seq<(Seq<char>, Seq<char>)>, i: int)
    requires
        0 <= i < entries.len(),
        forall|k: int| i < k < entries.len() ==> entries[k].0 != entries[i].0,
    ensures
        entries_map(entries).dom().contains(entries[i].0),
        entries_map(entries)[entries[i].0] == entries[i].1,
{
    lemma_tail_without_locale(entries, i + 1, entries[i].0);
    assert(entries.take(i + 1).drop_last() =~= entries.take(i));
    assert(entries.take(i + 1).last() == entries[i]);
}

} // verus!
