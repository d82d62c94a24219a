//! Filtering the list of programs by what the user typed.

use vstd::prelude::*;
use crate::application::{Application, ApplicationView};
use crate::text::{
    contains, is_substring, lemma_substring_transitive, lowercase_of, occurs_at, to_lowercase,
};

verus! {

/// A display name matches a search term when its lower-case form contains
/// the term. The term is taken as it is given: a caller who means the search
/// to ignore case gives the term in lower case.
pub open spec fn name_matches(name: Seq<char>, search_term: Seq<char>) -> bool {
    is_substring(lowercase_of(name), search_term)
}

/// The programs among `apps` whose name matches `search_term`, in the order
/// in which they stand in `apps`.
pub open spec fn matching(
    apps: Seq<ApplicationView>,
    search_term: Seq<char>,
) -> Seq<ApplicationView> {
    apps.filter(|app: ApplicationView| name_matches(app.name, search_term))
}

/// Whether a name whose lower-case form is `lowered_name` matches
/// `search_term`.
pub fn lowered_name_matches(lowered_name: &str, search_term: &str) -> (yes: bool)
    ensures
        yes == is_substring(lowered_name@, search_term@),
{
    contains(lowered_name, search_term)
}

/// The programs whose display name, in lower case, contains the search term.
///
/// The result holds copies of the matching programs, in the order of the
/// list. The empty term matches every name.
pub fn search_strings(apps: &Vec<Application>, search_term: &str) -> (result: Vec<Application>)
    ensures
        result.deep_view() == matching(apps.deep_view(), search_term@),
{
    let ghost all = apps.deep_view();
    let mut result: Vec<Application> = Vec::with_capacity(apps.len());
    let mut i: usize = 0;
    assert(all.take(0) =~= Seq::<ApplicationView>::empty());
    assert(result.deep_view() =~= matching(all.take(0), search_term@)) by {
        reveal(Seq::filter);
    }
    while i < apps.len()
        invariant
            i <= apps.len(),
            all == apps.deep_view(),
            result.deep_view() == matching(all.take(i as int), search_term@),
        decreases apps.len() - i,
    {
        let app = &apps[i];
        proof {
            lemma_matching_step(all, search_term@, i as int);
        }
        let lowered = to_lowercase(app.name.as_str());
        if lowered_name_matches(lowered.as_str(), search_term) {
            let ghost before = result.deep_view();
            result.push(app.clone());
            assert(result.deep_view() =~= before.push(all[i as int]));
        }
        i += 1;
    }
    assert(all.take(i as int) =~= all);
    result
}

/// Two names differ at most in the case of their letters: they have the same
/// lower-case form.
pub open spec fn same_ignoring_case(first: Seq<char>, second: Seq<char>) -> bool {
    lowercase_of(first) == lowercase_of(second)
}

/// `places` says where in `source` each element of `picked` stands: the
/// places rise, so the elements of `picked` keep the order they have in
/// `source`.
pub open spec fn keeps_order(
    source: Seq<ApplicationView>,
    picked: Seq<ApplicationView>,
    places: Seq<int>,
) -> bool {
    &&& places.len() == picked.len()
    &&& forall|k: int|
        0 <= k < places.len() ==> 0 <= #[trigger] places[k] < source.len() && picked[k]
            == source[places[k]]
    &&& forall|k: int, l: int| 0 <= k < l < places.len() ==> places[k] < places[l]
}

/// Names that differ only in the case of their letters match the same
/// search terms, whether a term is in lower case or not. So a term that
/// finds one of two such programs finds the other too.
pub proof fn lemma_case_variants_match_alike(
    first: Seq<char>,
    second: Seq<char>,
    search_term: Seq<char>,
)
    requires
        same_ignoring_case(first, second),
    ensures
        name_matches(first, search_term) == name_matches(second, search_term),
{
}

/// Where a search finds a program, it finds every program of the list whose
/// name differs from that program's only in the case of its letters.
pub proof fn lemma_search_finds_case_variants(
    apps: Seq<ApplicationView>,
    search_term: Seq<char>,
    found: ApplicationView,
    other: ApplicationView,
)
    requires
        matching(apps, search_term).contains(found),
        apps.contains(other),
        same_ignoring_case(found.name, other.name),
    ensures
        matching(apps, search_term).contains(other),
{
    let pred = |app: ApplicationView| name_matches(app.name, search_term);
    let k = choose|k: int| 0 <= k < apps.filter(pred).len() && apps.filter(pred)[k] == found;
    apps.lemma_filter_pred(pred, k);
    let i = choose|i: int| 0 <= i < apps.len() && apps[i] == other;
    assert(pred(apps[i]));
    apps.lemma_filter_contains(pred, i);
}

/// The empty term finds every program.
pub proof fn lemma_empty_term_finds_all(apps: Seq<ApplicationView>)
    ensures
        matching(apps, Seq::empty()) == apps,
    decreases apps.len(),
{
    reveal(Seq::filter);
    if apps.len() > 0 {
        lemma_empty_term_finds_all(apps.drop_last());
        let lowered = lowercase_of(apps.last().name);
        assert(lowered.subrange(0, 0) =~= Seq::<char>::empty());
        assert(occurs_at(lowered, Seq::empty(), 0));
        assert(apps.drop_last().push(apps.last()) =~= apps);
    }
}

/// A search keeps the order of the list: the programs it finds stand in the
/// result as they stand in the list, at the rising places that the lemma
/// returns. Every program at one of these places matches, and every program
/// that matches is at one of them.
pub proof fn lemma_search_keeps_order(
    apps: Seq<ApplicationView>,
    search_term: Seq<char>,
) -> (places: Seq<int>)
    ensures
        keeps_order(apps, matching(apps, search_term), places),
        forall|i: int|
            0 <= i < apps.len() ==> (name_matches(apps[i].name, search_term)
                <==> places.contains(i)),
    decreases apps.len(),
{
    reveal(Seq::filter);
    if apps.len() == 0 {
        Seq::empty()
    } else {
        let rest = apps.drop_last();
        let last = apps.len() - 1;
        let earlier = lemma_search_keeps_order(rest, search_term);
        let places = if name_matches(apps[last].name, search_term) {
            earlier.push(last)
        } else {
            earlier
        };
        assert forall|i: int| 0 <= i < apps.len() implies (name_matches(apps[i].name, search_term)
            <==> places.contains(i)) by {
            if i < last {
                assert(rest[i] == apps[i]);
                if earlier.contains(i) {
                    let k = choose|k: int| 0 <= k < earlier.len() && earlier[k] == i;
                    assert(places[k] == i);
                }
                if places.contains(i) {
                    let k = choose|k: int| 0 <= k < places.len() && places[k] == i;
                    assert(earlier[k] == i);
                }
            } else {
                if name_matches(apps[last].name, search_term) {
                    assert(places[places.len() - 1] == last);
                }
                if places.contains(i) {
                    let k = choose|k: int| 0 <= k < places.len() && places[k] == i;
                    if k < earlier.len() {
                        assert(earlier[k] < rest.len());
                    }
                }
            }
        }
        places
    }
}

/// Searching within the result of a search finds the programs that match
/// both terms.
pub proof fn lemma_search_within_search(
    apps: Seq<ApplicationView>,
    first_term: Seq<char>,
    second_term: Seq<char>,
)
    ensures
        matching(matching(apps, first_term), second_term) == apps.filter(
            |app: ApplicationView|
                name_matches(app.name, first_term) && name_matches(app.name, second_term),
        ),
    decreases apps.len(),
{
    reveal(Seq::filter);
    if apps.len() > 0 {
        let rest = apps.drop_last();
        lemma_search_within_search(rest, first_term, second_term);
        let found = matching(rest, first_term);
        if name_matches(apps.last().name, first_term) {
            assert(found.push(apps.last()).drop_last() =~= found);
        }
    }
}

/// Narrowing a search gives what the narrower term gives on the whole list:
/// where the term typed later contains the term typed earlier, searching the
/// earlier result for the later term is searching the list for it.
pub proof fn lemma_narrowed_search(
    apps: Seq<ApplicationView>,
    earlier_term: Seq<char>,
    later_term: Seq<char>,
)
    requires
        is_substring(later_term, earlier_term),
    ensures
        matching(matching(apps, earlier_term), later_term) == matching(apps, later_term),
    decreases apps.len(),
{
    reveal(Seq::filter);
    if apps.len() > 0 {
        let rest = apps.drop_last();
        lemma_narrowed_search(rest, earlier_term, later_term);
        let found = matching(rest, earlier_term);
        let name = apps.last().name;
        if name_matches(name, later_term) {
            lemma_substring_transitive(lowercase_of(name), later_term, earlier_term);
        }
        if name_matches(name, earlier_term) {
            assert(found.push(apps.last()).drop_last() =~= found);
        }
    }
}

/// One more program is kept where its name matches, and dropped where it
/// does not.
proof fn lemma_matching_step(apps: Seq<ApplicationView>, search_term: Seq<char>, i: int)
    requires
        0 <= i < apps.len(),
    ensures
        matching(apps.take(i + 1), search_term) == if name_matches(apps[i].name, search_term) {
            matching(apps.take(i), search_term).push(apps[i])
        } else {
            matching(apps.take(i), search_term)
        },
{
    reveal(Seq::filter);
    assert(apps.take(i + 1).drop_last() =~= apps.take(i));
    assert(apps.take(i + 1).last() == apps[i]);
}

} // verus!
