//! What holds of the merged catalogue: it is in order, it holds each target
//! once, and ordering loses and adds nothing.

use vstd::prelude::*;
use crate::discovery::{
    first_of_each_target, has_target, less_from, ordered_by_name, place_from, place_in_bounds,
    same_key, sort_key, text_less, DiscoveredAppView,
};

verus! {

/// The order of texts is transitive from any position on.
proof fn less_is_transitive_from(a: Seq<char>, b: Seq<char>, c: Seq<char>, from: int)
    requires
        0 <= from,
        less_from(a, b, from),
        less_from(b, c, from),
    ensures
        less_from(a, c, from),
    decreases a.len() - from,
{
    if from < a.len() && from < b.len() && from < c.len() && a[from] == b[from] && b[from]
        == c[from] {
        less_is_transitive_from(a, b, c, from + 1);
    }
}

/// The order of texts is transitive.
pub proof fn less_is_transitive(a: Seq<char>, b: Seq<char>, c: Seq<char>)
    requires
        text_less(a, b),
        text_less(b, c),
    ensures
        text_less(a, c),
{
    less_is_transitive_from(a, b, c, 0);
}

proof fn less_excludes_greater_from(a: Seq<char>, b: Seq<char>, from: int)
    requires
        0 <= from,
        less_from(a, b, from),
    ensures
        !less_from(b, a, from),
    decreases a.len() - from,
{
    if from < a.len() && from < b.len() && a[from] == b[from] {
        less_excludes_greater_from(a, b, from + 1);
    }
}

/// No text comes before itself, and of two texts at most one comes before
/// the other.
pub proof fn less_is_strict(a: Seq<char>, b: Seq<char>)
    ensures
        !text_less(a, a),
        text_less(a, b) ==> !text_less(b, a),
{
    if text_less(a, b) {
        less_excludes_greater_from(a, b, 0);
    }
    if text_less(a, a) {
        less_excludes_greater_from(a, a, 0);
    }
}

/// Whether no entry of `apps` comes after an entry whose name, in lower
/// case, comes strictly after its own.
pub open spec fn in_order(apps: Seq<DiscoveredAppView>) -> bool {
    forall|i: int, j: int|
        0 <= i < j < apps.len() ==> !text_less(
            sort_key(#[trigger] apps[j]),
            sort_key(#[trigger] apps[i]),
        )
}

proof fn place_splits(sorted: Seq<DiscoveredAppView>, app: DiscoveredAppView, from: int)
    requires
        0 <= from <= sorted.len(),
    ensures
        forall|k: int|
            from <= k < place_from(sorted, app, from) ==> !text_less(
                sort_key(app),
                sort_key(#[trigger] sorted[k]),
            ),
        place_from(sorted, app, from) < sorted.len() ==> text_less(
            sort_key(app),
            sort_key(sorted[place_from(sorted, app, from)]),
        ),
    decreases sorted.len() - from,
{
    if from < sorted.len() && !text_less(sort_key(app), sort_key(sorted[from])) {
        place_splits(sorted, app, from + 1);
    }
}

/// The ordered list is in order: no entry comes after one whose name, in
/// lower case, comes strictly after its own.
pub proof fn ordered_is_in_order(apps: Seq<DiscoveredAppView>)
    ensures
        in_order(ordered_by_name(apps)),
    decreases apps.len(),
{
    if apps.len() > 0 {
        let earlier = ordered_by_name(apps.drop_last());
        let app = apps.last();
        let at = place_from(earlier, app, 0);
        ordered_is_in_order(apps.drop_last());
        place_in_bounds(earlier, app, 0);
        place_splits(earlier, app, 0);
        let result = earlier.insert(at, app);
        assert forall|i: int, j: int| 0 <= i < j < result.len() implies !text_less(
            sort_key(#[trigger] result[j]),
            sort_key(#[trigger] result[i]),
        ) by {
            if j < at {
                assert(result[i] == earlier[i] && result[j] == earlier[j]);
            } else if j == at {
                assert(result[i] == earlier[i]);
                assert(result[j] == app);
                assert(!text_less(sort_key(app), sort_key(earlier[i])));
            } else if i == at {
                assert(result[i] == app);
                assert(result[j] == earlier[j - 1]);
                assert(text_less(sort_key(app), sort_key(earlier[at])));
                if j - 1 == at {
                    less_is_strict(sort_key(app), sort_key(earlier[at]));
                } else {
                    assert(!text_less(sort_key(earlier[j - 1]), sort_key(earlier[at])));
                    if text_less(sort_key(earlier[j - 1]), sort_key(app)) {
                        less_is_transitive(
                            sort_key(earlier[j - 1]),
                            sort_key(app),
                            sort_key(earlier[at]),
                        );
                    }
                }
            } else if i < at {
                assert(result[i] == earlier[i] && result[j] == earlier[j - 1]);
                assert(!text_less(sort_key(earlier[j - 1]), sort_key(earlier[i])));
            } else {
                assert(result[i] == earlier[i - 1] && result[j] == earlier[j - 1]);
                assert(!text_less(sort_key(earlier[j - 1]), sort_key(earlier[i - 1])));
            }
        }
    }
}

/// Ordering loses nothing and adds nothing: the ordered list holds the
/// same entries as the list it was made from, each as often.
pub proof fn ordered_holds_the_same(apps: Seq<DiscoveredAppView>)
    ensures
        ordered_by_name(apps).to_multiset() == apps.to_multiset(),
        ordered_by_name(apps).len() == apps.len(),
    decreases apps.len(),
{
    if apps.len() > 0 {
        let earlier = ordered_by_name(apps.drop_last());
        let app = apps.last();
        ordered_holds_the_same(apps.drop_last());
        place_in_bounds(earlier, app, 0);
        vstd::seq_lib::to_multiset_insert(earlier, place_from(earlier, app, 0), app);
        vstd::seq_lib::to_multiset_build(apps.drop_last(), app);
        assert(apps.drop_last().push(app) =~= apps);
        assert(ordered_by_name(apps).to_multiset() =~= apps.to_multiset());
    } else {
        assert(ordered_by_name(apps) =~= apps);
    }
}

/// Entries of the same name keep their order: of two entries of `apps`
/// whose names are the same in lower case, the earlier one comes first in
/// the ordered list too. Stated for a list without repeated entries.
pub proof fn same_name_keeps_order(apps: Seq<DiscoveredAppView>, first: int, second: int)
    requires
        0 <= first < second < apps.len(),
        sort_key(apps[first]) == sort_key(apps[second]),
        apps.no_duplicates(),
    ensures
        ordered_by_name(apps).index_of(apps[first]) < ordered_by_name(apps).index_of(apps[second]),
        ordered_by_name(apps).contains(apps[first]),
        ordered_by_name(apps).contains(apps[second]),
    decreases apps.len(),
{
    let earlier_apps = apps.drop_last();
    let earlier = ordered_by_name(earlier_apps);
    let app = apps.last();
    let at = place_from(earlier, app, 0);
    let result = ordered_by_name(apps);
    place_in_bounds(earlier, app, 0);
    place_splits(earlier, app, 0);
    ordered_holds_the_same(earlier_apps);
    ordered_holds_the_same(apps);
    ordered_is_in_order(earlier_apps);
    holds_what_it_was_made_from(earlier_apps);
    holds_what_it_was_made_from(apps);
    no_repeats_after_ordering(earlier_apps);
    no_repeats_after_ordering(apps);
    assert(earlier_apps.no_duplicates());
    if second < apps.len() - 1 {
        same_name_keeps_order(earlier_apps, first, second);
        let a = earlier.index_of(apps[first]);
        let b = earlier.index_of(apps[second]);
        assert(earlier_apps[first] == apps[first] && earlier_apps[second] == apps[second]);
        let a2 = if a < at {
            a
        } else {
            a + 1
        };
        let b2 = if b < at {
            b
        } else {
            b + 1
        };
        assert(result[a2] == apps[first]);
        assert(result[b2] == apps[second]);
        assert(result.index_of(apps[first]) == a2);
        assert(result.index_of(apps[second]) == b2);
    } else {
        // the second entry is the one placed last: it goes behind every
        // entry of the same name
        assert(earlier_apps[first] == apps[first]);
        assert(earlier_apps.contains(apps[first]));
        assert(earlier.contains(apps[first]));
        let a = earlier.index_of(apps[first]);
        less_is_strict(sort_key(app), sort_key(app));
        if a >= at {
            // everything from the place on comes strictly after the new entry
            if a > at {
                assert(!text_less(sort_key(earlier[a]), sort_key(earlier[at])));
            }
            assert(text_less(sort_key(app), sort_key(earlier[at])));
            assert(false);
        }
        assert(result[a] == apps[first]);
        assert(result[at] == app);
        assert(result.index_of(apps[first]) == a);
        assert(result.index_of(app) == at);
    }
}

proof fn holds_what_it_was_made_from(apps: Seq<DiscoveredAppView>)
    ensures
        forall|x: DiscoveredAppView| ordered_by_name(apps).contains(x) <==> apps.contains(x),
{
    ordered_holds_the_same(apps);
    assert forall|x: DiscoveredAppView| ordered_by_name(apps).contains(x) <==> apps.contains(
        x,
    ) by {
        vstd::seq_lib::to_multiset_contains(ordered_by_name(apps), x);
        vstd::seq_lib::to_multiset_contains(apps, x);
    }
}

proof fn no_repeats_after_ordering(apps: Seq<DiscoveredAppView>)
    requires
        apps.no_duplicates(),
    ensures
        ordered_by_name(apps).no_duplicates(),
{
    ordered_holds_the_same(apps);
    apps.lemma_multiset_has_no_duplicates();
    ordered_by_name(apps).lemma_multiset_has_no_duplicates_conv();
}

/// What is kept holds every target once: no two entries of the kept list
/// have the same target up to case.
pub proof fn kept_targets_differ(apps: Seq<DiscoveredAppView>)
    ensures
        forall|i: int, j: int|
            0 <= i < j < first_of_each_target(apps).len() ==> same_key(
                #[trigger] first_of_each_target(apps)[i],
            ) != same_key(#[trigger] first_of_each_target(apps)[j]),
    decreases apps.len(),
{
    if apps.len() > 0 {
        kept_targets_differ(apps.drop_last());
        let earlier = first_of_each_target(apps.drop_last());
        let kept = first_of_each_target(apps);
        assert forall|i: int, j: int| 0 <= i < j < kept.len() implies same_key(#[trigger] kept[i])
            != same_key(#[trigger] kept[j]) by {
            if j < earlier.len() {
                assert(kept[i] == earlier[i] && kept[j] == earlier[j]);
            } else {
                assert(kept[i] == earlier[i]);
                assert(!has_target(earlier, same_key(apps.last())));
            }
        }
    }
}

/// Nothing is lost but repetitions: the target of every entry is still
/// there after the repetitions are dropped, and every entry kept is one of
/// the entries given.
pub proof fn every_target_kept(apps: Seq<DiscoveredAppView>)
    ensures
        forall|i: int|
            0 <= i < apps.len() ==> has_target(
                first_of_each_target(apps),
                same_key(#[trigger] apps[i]),
            ),
        forall|k: int|
            0 <= k < first_of_each_target(apps).len() ==> apps.contains(
                #[trigger] first_of_each_target(apps)[k],
            ),
    decreases apps.len(),
{
    if apps.len() > 0 {
        let earlier = first_of_each_target(apps.drop_last());
        let kept = first_of_each_target(apps);
        every_target_kept(apps.drop_last());
        assert forall|i: int| 0 <= i < apps.len() implies has_target(
            kept,
            same_key(#[trigger] apps[i]),
        ) by {
            if i < apps.len() - 1 {
                assert(apps.drop_last()[i] == apps[i]);
                let k = choose|k: int|
                    0 <= k < earlier.len() && same_key(#[trigger] earlier[k]) == same_key(apps[i]);
                assert(kept[k] == earlier[k]);
            } else {
                if has_target(earlier, same_key(apps.last())) {
                    let k = choose|k: int|
                        0 <= k < earlier.len() && same_key(#[trigger] earlier[k]) == same_key(
                            apps.last(),
                        );
                    assert(kept[k] == earlier[k]);
                } else {
                    assert(kept[earlier.len() as int] == apps.last());
                }
            }
        }
        assert forall|k: int| 0 <= k < kept.len() implies apps.contains(#[trigger] kept[k]) by {
            if k < earlier.len() {
                assert(kept[k] == earlier[k]);
                let i = choose|i: int| 0 <= i < apps.drop_last().len() && apps.drop_last()[i]
                    == earlier[k];
                assert(apps[i] == earlier[k]);
            } else {
                assert(apps[apps.len() - 1] == kept[k]);
            }
        }
    }
}

} // verus!
