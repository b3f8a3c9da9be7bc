//! The catalogue of installed applications: how the finds of the scanners are
//! merged into one list.
//!
//! Reading the disk and the registry is the caller's part; it hands over
//! what each scanner found.

use vstd::prelude::*;
use crate::text::{chars_of, lower, lowercase};

verus! {

/// An application that a scanner found.
#[derive(Clone, Debug, PartialEq, Eq)]
pub struct DiscoveredApp {
    pub name: String,
    /// What to launch: a path, a command line or a URI.
    pub target: String,
    /// Name under which the running application shows up, empty if unknown.
    pub process_name: String,
    /// The scanner that found it: `steam`, `epic`, `windows`, `macos` or
    /// `linux`.
    pub source: String,
}

pub struct DiscoveredAppView {
    pub name: Seq<char>,
    pub target: Seq<char>,
    pub process_name: Seq<char>,
    pub source: Seq<char>,
}

impl View for DiscoveredApp {
    type V = DiscoveredAppView;

    open spec fn view(&self) -> DiscoveredAppView {
        DiscoveredAppView {
            name: self.name@,
            target: self.target@,
            process_name: self.process_name@,
            source: self.source@,
        }
    }
}

/// The views of a sequence of applications, position by position.
pub open spec fn app_views(apps: Seq<DiscoveredApp>) -> Seq<DiscoveredAppView> {
    Seq::new(apps.len(), |i: int| apps[i]@)
}

/// Whether text `a` comes before text `b` from position `from` on, given
/// that they agree before it: at the first position where they differ the
/// character of `a` has the lower code point, or `a` ends first. This is
/// the order of `str`.
pub open spec fn less_from(a: Seq<char>, b: Seq<char>, from: int) -> bool
    decreases a.len() - from,
{
    if from < 0 || from >= b.len() {
        false
    } else if from >= a.len() {
        true
    } else if a[from] != b[from] {
        a[from] < b[from]
    } else {
        less_from(a, b, from + 1)
    }
}

/// Whether text `a` comes strictly before text `b`.
pub open spec fn text_less(a: Seq<char>, b: Seq<char>) -> bool {
    less_from(a, b, 0)
}

/// The key by which applications are ordered: the name in lower case.
pub open spec fn sort_key(app: DiscoveredAppView) -> Seq<char> {
    lowercase(app.name)
}

/// The key by which applications count as the same: the target in lower
/// case.
pub open spec fn same_key(app: DiscoveredAppView) -> Seq<char> {
    lowercase(app.target)
}

/// Whether one of `apps` has this target, up to case.
pub open spec fn has_target(apps: Seq<DiscoveredAppView>, key: Seq<char>) -> bool {
    exists|i: int| 0 <= i < apps.len() && same_key(#[trigger] apps[i]) == key
}

/// `apps` without those whose target, up to case, an earlier one has.
pub open spec fn first_of_each_target(apps: Seq<DiscoveredAppView>) -> Seq<DiscoveredAppView>
    decreases apps.len(),
{
    if apps.len() == 0 {
        seq![]
    } else {
        let earlier = first_of_each_target(apps.drop_last());
        if has_target(earlier, same_key(apps.last())) {
            earlier
        } else {
            earlier.push(apps.last())
        }
    }
}

/// Where `app` goes in a list ordered by name: before the first entry at or
/// after `from` whose name comes strictly after its own, so behind every
/// entry of the same name.
pub open spec fn place_from(sorted: Seq<DiscoveredAppView>, app: DiscoveredAppView, from: int) -> int
    decreases sorted.len() - from,
{
    if from < 0 || from >= sorted.len() || text_less(sort_key(app), sort_key(sorted[from])) {
        from
    } else {
        place_from(sorted, app, from + 1)
    }
}

/// `apps` ordered by name in lower case; entries of the same name keep the
/// order in which they came.
pub open spec fn ordered_by_name(apps: Seq<DiscoveredAppView>) -> Seq<DiscoveredAppView>
    decreases apps.len(),
{
    if apps.len() == 0 {
        seq![]
    } else {
        let earlier = ordered_by_name(apps.drop_last());
        earlier.insert(place_from(earlier, apps.last(), 0), apps.last())
    }
}

/// The catalogue made of the finds of the three scanners: all finds in the
/// order Steam, Epic, installed; of those with the same target, up to case,
/// the first one only; the rest ordered by name in lower case.
pub open spec fn catalogue(
    steam: Seq<DiscoveredAppView>,
    epic: Seq<DiscoveredAppView>,
    installed: Seq<DiscoveredAppView>,
) -> Seq<DiscoveredAppView> {
    ordered_by_name(first_of_each_target(steam + epic + installed))
}

/// Whether text `a` comes strictly before text `b` in the order of `str`.
pub fn comes_before(a: &Vec<char>, b: &Vec<char>) -> (yes: bool)
    ensures
        yes == text_less(a@, b@),
{
    let mut i: usize = 0;
    loop
        invariant
            i <= a.len(),
            i <= b.len(),
            text_less(a@, b@) == less_from(a@, b@, i as int),
        decreases a.len() - i,
    {
        if i >= b.len() {
            return false;
        }
        if i >= a.len() {
            return true;
        }
        if a[i] != b[i] {
            return a[i] < b[i];
        }
        i = i + 1;
    }
}

/// The bound of `place_from`: the place lies between `from` and the end.
pub proof fn place_in_bounds(sorted: Seq<DiscoveredAppView>, app: DiscoveredAppView, from: int)
    requires
        0 <= from <= sorted.len(),
    ensures
        from <= place_from(sorted, app, from) <= sorted.len(),
    decreases sorted.len() - from,
{
    if from < sorted.len() && !text_less(sort_key(app), sort_key(sorted[from])) {
        place_in_bounds(sorted, app, from + 1);
    }
}

/// Merges the finds of the three scanners into one catalogue: drops every
/// find whose target, up to case, an earlier find has, and orders the rest
/// by name in lower case, finds of the same name in the order of finding.
pub fn scan_all(
    steam: Vec<DiscoveredApp>,
    epic: Vec<DiscoveredApp>,
    installed: Vec<DiscoveredApp>,
) -> (apps: Vec<DiscoveredApp>)
    ensures
        app_views(apps@) == catalogue(app_views(steam@), app_views(epic@), app_views(installed@)),
{
    let ghost merged = app_views(steam@) + app_views(epic@) + app_views(installed@);
    let mut all = steam;
    let mut epic = epic;
    let mut installed = installed;
    all.append(&mut epic);
    all.append(&mut installed);
    assert(app_views(all@) =~= merged);
    let kept = dedup_by_target(all);
    sort_by_name(kept)
}

/// Drops every application whose target, up to case, an earlier one has.
pub fn dedup_by_target(apps: Vec<DiscoveredApp>) -> (kept: Vec<DiscoveredApp>)
    ensures
        app_views(kept@) == first_of_each_target(app_views(apps@)),
{
    let ghost all = app_views(apps@);
    let mut rest = apps;
    let total = rest.len();
    let mut kept: Vec<DiscoveredApp> = Vec::new();
    let mut seen: Vec<Vec<char>> = Vec::new();
    let mut i: usize = 0;
    while i < total
        invariant
            i <= total,
            total == all.len(),
            rest@.len() == total - i,
            forall|k: int| 0 <= k < rest@.len() ==> (#[trigger] rest@[k])@ == all[i + k],
            app_views(kept@) == first_of_each_target(all.take(i as int)),
            seen@.len() == kept@.len(),
            forall|k: int| 0 <= k < seen@.len() ==> (#[trigger] seen@[k])@ == same_key(kept@[k]@),
        decreases total - i,
    {
        let app = rest.remove(0);
        assert(all.take(i + 1).drop_last() =~= all.take(i as int));
        let key = lower(&chars_of(app.target.as_str()));
        let mut found = false;
        let mut j: usize = 0;
        while j < seen.len()
            invariant_except_break
                !found,
                forall|k: int| 0 <= k < j ==> same_key(#[trigger] app_views(kept@)[k]) != key@,
            invariant
                j <= seen.len(),
                seen@.len() == kept@.len(),
                forall|k: int| 0 <= k < seen@.len() ==> (#[trigger] seen@[k])@ == same_key(kept@[k]@),
            ensures
                found == has_target(app_views(kept@), key@),
            decreases seen.len() - j,
        {
            if crate::text::same_chars(&seen[j], &key) {
                found = true;
                assert(same_key(app_views(kept@)[j as int]) == key@);
                break;
            }
            j = j + 1;
        }
        if !found {
            kept.push(app);
            seen.push(key);
        }
        i = i + 1;
    }
    assert(all.take(total as int) =~= all);
    kept
}

/// Orders applications by name in lower case; applications of the same
/// name keep the order in which they came.
pub fn sort_by_name(apps: Vec<DiscoveredApp>) -> (sorted: Vec<DiscoveredApp>)
    ensures
        app_views(sorted@) == ordered_by_name(app_views(apps@)),
{
    let ghost all = app_views(apps@);
    let mut rest = apps;
    let total = rest.len();
    let mut sorted: Vec<DiscoveredApp> = Vec::new();
    let mut keys: Vec<Vec<char>> = Vec::new();
    let mut i: usize = 0;
    while i < total
        invariant
            i <= total,
            total == all.len(),
            rest@.len() == total - i,
            forall|k: int| 0 <= k < rest@.len() ==> (#[trigger] rest@[k])@ == all[i + k],
            app_views(sorted@) == ordered_by_name(all.take(i as int)),
            keys@.len() == sorted@.len(),
            sorted@.len() == i,
            forall|k: int| 0 <= k < keys@.len() ==> (#[trigger] keys@[k])@ == sort_key(sorted@[k]@),
        decreases total - i,
    {
        let ghost sorted_before = app_views(sorted@);
        let app = rest.remove(0);
        assert(all.take(i + 1).drop_last() =~= all.take(i as int));
        let key = lower(&chars_of(app.name.as_str()));
        let mut at: usize = 0;
        while at < keys.len() && !comes_before(&key, &keys[at])
            invariant
                at <= keys.len(),
                keys@.len() == sorted@.len(),
                key@ == sort_key(app@),
                sorted_before == app_views(sorted@),
                forall|k: int|
                    0 <= k < keys@.len() ==> (#[trigger] keys@[k])@ == sort_key(sorted@[k]@),
                place_from(sorted_before, app@, 0) == place_from(sorted_before, app@, at as int),
            decreases keys.len() - at,
        {
            at = at + 1;
        }
        sorted.insert(at, app);
        keys.insert(at, key);
        i = i + 1;
    }
    assert(all.take(total as int) =~= all);
    sorted
}

} // verus!
