//! Which profiles are offered, and under which names.

use crate::features::profiles::catalog::{
    apps, arranged, available_profiles, candidates, identity_at, identity_for_application, kind_at,
    lower_names, observed_at, offered, presents, sorted_on, Application, ApplicationIdentity,
    CatalogLoad, CatalogPresentation, IdentityKind, ProfileChoice,
};
use crate::features::profiles::model::{
    app_name, device_profile_scope_bar, lists_saved, profile_scope_model, recent_choices,
    reported_name, taken, with_open, ProfileScopeModel, ProfileTab, RecentApp, SavedProfile,
};
use crate::features::profiles::names::{
    first_mark, friendly_app_name, leading_end, monogram, part_end, part_start, trailing_start,
    trim, white, without_exe, Separator,
};
use crate::features::profiles::picker::{
    add_app_content, filtered, profile_matches_query, AddAppContent, CatalogNotice,
};
use crate::order::{position_listed, stable_order};
use crate::state::AppState;
use crate::table::lists;
use crate::text::laws::{comes_first, order_is_decided_at_the_first_difference};
use crate::text::{lowercase, optional_view, within};
use vstd::prelude::*;

verus! {

/// Whether the `i`-th of an application's names is the one that its profile goes
/// by: the first under which it was observed; where it was not, the first of the
/// preferred kind; where there is none and windows go by their class, the first
/// desktop id.
pub open spec fn goes_by(
    application: Application,
    observed: Seq<String>,
    preferred: IdentityKind,
    i: int,
) -> bool {
    let names = application.identities@;
    &&& 0 <= i < names.len()
    &&& {
        ||| lists(observed, names[i].value@) && forall|k: int|
            0 <= k < i ==> !lists(observed, (#[trigger] names[k]).value@)
        ||| {
            &&& forall|k: int|
                0 <= k < names.len() ==> !lists(observed, (#[trigger] names[k]).value@)
            &&& {
                ||| names[i].kind == preferred && forall|k: int|
                    0 <= k < i ==> (#[trigger] names[k]).kind != preferred
                ||| {
                    &&& preferred is LinuxStartupWmClass
                    &&& forall|k: int|
                        0 <= k < names.len() ==> (#[trigger] names[k]).kind != preferred
                    &&& names[i].kind is LinuxDesktopId
                    &&& forall|k: int|
                        0 <= k < i ==> !((#[trigger] names[k]).kind is LinuxDesktopId)
                }
            }
        }
    }
}

proof fn observed_is_first(names: Seq<ApplicationIdentity>, observed: Seq<String>, from: int)
    requires
        0 <= from <= names.len(),
    ensures
        match observed_at(names, observed, from) {
            Some(at) => from <= at < names.len() && lists(observed, names[at].value@) && forall|k: int|
                from <= k < at ==> !lists(observed, (#[trigger] names[k]).value@),
            None => forall|k: int|
                from <= k < names.len() ==> !lists(observed, (#[trigger] names[k]).value@),
        },
    decreases names.len() - from,
{
    if from < names.len() {
        observed_is_first(names, observed, from + 1);
    }
}

proof fn kind_is_first(names: Seq<ApplicationIdentity>, kind: IdentityKind, from: int)
    requires
        0 <= from <= names.len(),
    ensures
        match kind_at(names, kind, from) {
            Some(at) => from <= at < names.len() && names[at].kind == kind && forall|k: int|
                from <= k < at ==> (#[trigger] names[k]).kind != kind,
            None => forall|k: int| from <= k < names.len() ==> (#[trigger] names[k]).kind != kind,
        },
    decreases names.len() - from,
{
    if from < names.len() {
        kind_is_first(names, kind, from + 1);
    }
}

proof fn names_are_chosen(
    application: Application,
    observed: Seq<String>,
    preferred: IdentityKind,
    i: int,
)
    ensures
        goes_by(application, observed, preferred, i) <==> identity_at(
            application,
            observed,
            preferred,
        ) == Some(i),
{
    let names = application.identities@;
    observed_is_first(names, observed, 0);
    kind_is_first(names, preferred, 0);
    kind_is_first(names, IdentityKind::LinuxDesktopId, 0);
    if goes_by(application, observed, preferred, i) {
        assert(names[i] == names[i]);
        if let Some(at) = observed_at(names, observed, 0) {
            assert(names[at] == names[at]);
        }
        if let Some(at) = kind_at(names, preferred, 0) {
            assert(names[at] == names[at]);
        }
        if let Some(at) = kind_at(names, IdentityKind::LinuxDesktopId, 0) {
            assert(names[at] == names[at]);
        }
    }
}

/// An application's profile goes by the name under which it was observed; else
/// by one of the kind that the system reports; else, where windows go by their
/// class, by its desktop id; and else by none.
pub proof fn a_profile_goes_by_the_name_observed(
    application: &Application,
    observed: &Vec<String>,
    preferred: IdentityKind,
    identity: Option<String>,
    i: int,
)
    requires
        call_ensures(identity_for_application, (application, observed, preferred), identity),
    ensures
        goes_by(*application, observed@, preferred, i) ==> (identity matches Some(identity)
            && identity@ == application.identities@[i].value@),
        identity is Some ==> exists|k: int| #[trigger] goes_by(*application, observed@, preferred, k),
{
    names_are_chosen(*application, observed@, preferred, i);
    if let Some(at) = identity_at(*application, observed@, preferred) {
        names_are_chosen(*application, observed@, preferred, at);
    }
}

proof fn candidates_are_applications(
    applications: Seq<Application>,
    observed: Seq<String>,
    unavailable: Seq<String>,
    preferred: IdentityKind,
    upto: int,
    c: int,
) -> (k: int)
    requires
        0 <= upto <= applications.len(),
        0 <= c < candidates(applications, observed, unavailable, preferred, upto).len(),
    ensures
        0 <= k < upto,
        ({
            let choice = candidates(applications, observed, unavailable, preferred, upto)[c];
            &&& identity_at(applications[k], observed, preferred) matches Some(i)
            &&& choice.app == applications[k].identities@[i].value
            &&& choice.name == applications[k].name
            &&& choice.override_count == 0
            &&& !choice.persisted
            &&& !lists(unavailable, choice.app@)
        }),
    decreases upto,
{
    let rest = candidates(applications, observed, unavailable, preferred, upto - 1);
    if c < rest.len() {
        candidates_are_applications(applications, observed, unavailable, preferred, upto - 1, c)
    } else {
        upto - 1
    }
}

proof fn applications_are_candidates(
    applications: Seq<Application>,
    observed: Seq<String>,
    unavailable: Seq<String>,
    preferred: IdentityKind,
    upto: int,
    k: int,
    i: int,
)
    requires
        0 <= k < upto <= applications.len(),
        identity_at(applications[k], observed, preferred) == Some(i),
        !lists(unavailable, applications[k].identities@[i].value@),
    ensures
        offered(
            candidates(applications, observed, unavailable, preferred, upto),
            applications[k].identities@[i].value@,
        ),
    decreases upto,
{
    let app = applications[k].identities@[i].value@;
    let rest = candidates(applications, observed, unavailable, preferred, upto - 1);
    let all = candidates(applications, observed, unavailable, preferred, upto);
    if k < upto - 1 {
        applications_are_candidates(
            applications,
            observed,
            unavailable,
            preferred,
            upto - 1,
            k,
            i,
        );
        let c = choose|c: int| 0 <= c < rest.len() && (#[trigger] rest[c]).app@ == app;
        assert(all[c].app@ == app);
    } else if offered(rest, app) {
        let c = choose|c: int| 0 <= c < rest.len() && (#[trigger] rest[c]).app@ == app;
        assert(all[c].app@ == app);
    } else {
        assert(all[rest.len() as int].app@ == app);
    }
}

proof fn sorting_keeps(
    sorted: Seq<ProfileChoice>,
    choices: Seq<ProfileChoice>,
    keys: Seq<Seq<char>>,
    a: int,
    c: int,
) -> (found: (int, int))
    requires
        keys.len() == choices.len(),
        sorted_on(sorted, choices, keys),
    ensures
        sorted.len() == choices.len(),
        0 <= a < sorted.len() ==> 0 <= found.0 < choices.len() && sorted[a] == choices[found.0],
        0 <= c < choices.len() ==> 0 <= found.1 < sorted.len() && sorted[found.1] == choices[c],
{
    let order = choose|order: Seq<usize>| #[trigger]
        stable_order(keys, order) && arranged(sorted, choices, order);
    let place = if 0 <= c < choices.len() {
        position_listed(keys, order, c)
    } else {
        0
    };
    if 0 <= a < sorted.len() {
        assert(sorted[a] == choices[order[a] as int]);
        assert(order[a] < keys.len());
        if 0 <= c < choices.len() {
            assert(sorted[place] == choices[order[place] as int]);
        }
        (order[a] as int, place)
    } else {
        if 0 <= c < choices.len() {
            assert(sorted[place] == choices[order[place] as int]);
        }
        (0, place)
    }
}

proof fn offered_by_name(
    applications: Vec<Application>,
    observed: Seq<String>,
    unavailable: Seq<String>,
    preferred: IdentityKind,
    shown: CatalogPresentation,
    k: int,
    i: int,
    a: int,
    b: int,
)
    requires
        presents(shown, CatalogLoad::Ready(applications), observed, unavailable, preferred),
    ensures
        shown is Ready,
        ({
            let choices = shown->Ready_0@;
            &&& 0 <= k < applications@.len() && goes_by(applications@[k], observed, preferred, i)
                && !lists(unavailable, applications@[k].identities@[i].value@) ==> exists|c: int|
                0 <= c < choices.len() && (#[trigger] choices[c]).app@
                    == applications@[k].identities@[i].value@
            &&& 0 <= a < choices.len() ==> !lists(unavailable, choices[a].app@)
                && !choices[a].persisted && choices[a].override_count == 0
            &&& 0 <= a < choices.len() ==> exists|m: int, n: int|
                #![trigger applications@[m].identities@[n]]
                0 <= m < applications@.len() && goes_by(applications@[m], observed, preferred, n)
                    && choices[a].app@ == applications@[m].identities@[n].value@
                    && choices[a].name@ == applications@[m].name@
            &&& 0 <= a < b < choices.len() ==> comes_first(
                lowercase(choices[a].name@),
                lowercase(choices[b].name@),
            )
            &&& 0 <= a < b < choices.len() && lowercase(choices[a].name@) == lowercase(
                choices[b].name@,
            ) ==> comes_first(choices[a].app@, choices[b].app@)
        }),
{
    let n = applications@.len() as int;
    let all = candidates(applications@, observed, unavailable, preferred, n);
    let choices = shown->Ready_0@;
    let between = choose|between: Seq<ProfileChoice>| #[trigger]
        sorted_on(between, all, apps(all)) && sorted_on(choices, between, lower_names(between));
    if 0 <= k < n && goes_by(applications@[k], observed, preferred, i) && !lists(
        unavailable,
        applications@[k].identities@[i].value@,
    ) {
        names_are_chosen(applications@[k], observed, preferred, i);
        applications_are_candidates(applications@, observed, unavailable, preferred, n, k, i);
        let app = applications@[k].identities@[i].value@;
        let c = choose|c: int| 0 <= c < all.len() && (#[trigger] all[c]).app@ == app;
        let at = sorting_keeps(between, all, apps(all), 0, c);
        let to = sorting_keeps(choices, between, lower_names(between), 0, at.1);
        assert(choices[to.1].app@ == app);
    }
    if 0 <= a < choices.len() {
        let from = sorting_keeps(choices, between, lower_names(between), a, 0);
        let first = sorting_keeps(between, all, apps(all), from.0, 0);
        let m = candidates_are_applications(
            applications@,
            observed,
            unavailable,
            preferred,
            n,
            first.0,
        );
        let at = identity_at(applications@[m], observed, preferred)->0;
        names_are_chosen(applications@[m], observed, preferred, at);
        assert(choices[a].app@ == applications@[m].identities@[at].value@);
    }
    if 0 <= a < b < choices.len() {
        crate::features::profiles::catalog::sorted_choices_stand_in_order(choices, all, a, b);
        order_is_decided_at_the_first_difference(
            lowercase(choices[a].name@),
            lowercase(choices[b].name@),
        );
        order_is_decided_at_the_first_difference(choices[a].app@, choices[b].app@);
    }
}

/// What the catalog offers: only installed applications, under the name that
/// their profile goes by and none that is unavailable; each that has such a
/// name; and all by name without regard to case, those of one name by what they
/// go by.
pub proof fn installed_applications_are_offered_by_name(
    applications: Vec<Application>,
    observed: &Vec<String>,
    unavailable: &Vec<String>,
    preferred: IdentityKind,
    shown: CatalogPresentation,
    k: int,
    i: int,
    a: int,
    b: int,
)
    requires
        call_ensures(
            available_profiles,
            (&CatalogLoad::Ready(applications), observed, unavailable, preferred),
            shown,
        ),
    ensures
        shown is Ready,
        ({
            let choices = shown->Ready_0@;
            &&& 0 <= k < applications@.len() && goes_by(applications@[k], observed@, preferred, i)
                && !lists(unavailable@, applications@[k].identities@[i].value@) ==> exists|c: int|
                0 <= c < choices.len() && (#[trigger] choices[c]).app@
                    == applications@[k].identities@[i].value@
            &&& 0 <= a < choices.len() ==> !lists(unavailable@, choices[a].app@)
                && !choices[a].persisted && choices[a].override_count == 0
            &&& 0 <= a < choices.len() ==> exists|m: int, n: int|
                #![trigger applications@[m].identities@[n]]
                0 <= m < applications@.len() && goes_by(applications@[m], observed@, preferred, n)
                    && choices[a].app@ == applications@[m].identities@[n].value@
                    && choices[a].name@ == applications@[m].name@
            &&& 0 <= a < b < choices.len() ==> comes_first(
                lowercase(choices[a].name@),
                lowercase(choices[b].name@),
            )
            &&& 0 <= a < b < choices.len() && lowercase(choices[a].name@) == lowercase(
                choices[b].name@,
            ) ==> comes_first(choices[a].app@, choices[b].app@)
        }),
{
    offered_by_name(applications, observed@, unavailable@, preferred, shown, k, i, a, b);
}

proof fn reported_is_first(recent: Seq<RecentApp>, app: Seq<char>, from: int, i: int)
    requires
        0 <= from <= i <= recent.len(),
        forall|k: int| from <= k < i ==> (#[trigger] recent[k]).app@ != app,
        i < recent.len() ==> recent[i].app@ == app,
    ensures
        reported_name(recent, app, from) == if i < recent.len() {
            Some(recent[i].name@)
        } else {
            None
        },
    decreases i - from,
{
    if from < i {
        assert(recent[from].app@ != app);
        reported_is_first(recent, app, from + 1, i);
    }
}

/// An application is shown under the name that it was first reported under, and
/// else under the readable part of its identifier.
pub proof fn a_reported_name_is_shown(
    recent: &Vec<RecentApp>,
    app: &str,
    name: String,
    friendly: String,
    i: int,
)
    requires
        call_ensures(app_name, (recent, app), name),
        call_ensures(friendly_app_name, (app,), friendly),
        0 <= i <= recent@.len(),
        forall|k: int| 0 <= k < i ==> (#[trigger] recent@[k]).app@ != app@,
        i < recent@.len() ==> recent@[i].app@ == app@,
    ensures
        i < recent@.len() ==> name@ == recent@[i].name@,
        i == recent@.len() ==> name@ == friendly@,
{
    reported_is_first(recent@, app@, 0, i);
}

/// Whether a character stands between the parts of an identifier: a dot, or of
/// a path either slash.
pub open spec fn parts(path: bool, c: char) -> bool {
    if path {
        c == '/' || c == '\\'
    } else {
        c == '.'
    }
}

/// Whether `part` is the last part of a text that is not empty, and the whole of
/// a text that has none.
pub open spec fn is_last_part(text: Seq<char>, path: bool, part: Seq<char>) -> bool {
    ||| (forall|i: int| 0 <= i < text.len() ==> parts(path, #[trigger] text[i])) && part == text
    ||| exists|from: int, to: int|
        #![trigger text.subrange(from, to)]
        0 <= from < to <= text.len() && part == text.subrange(from, to) && (from == 0 || parts(
            path,
            text[from - 1],
        )) && (forall|i: int| from <= i < to ==> !parts(path, #[trigger] text[i])) && (forall|i: int|
            to <= i < text.len() ==> parts(path, #[trigger] text[i]))
}

proof fn ends(text: Seq<char>, path: bool, upto: int)
    requires
        0 <= upto <= text.len(),
    ensures
        ({
            let end = part_end(
                text,
                if path {
                    Separator::Slash
                } else {
                    Separator::Dot
                },
                upto,
            );
            &&& 0 <= end <= upto
            &&& forall|i: int| end <= i < upto ==> parts(path, #[trigger] text[i])
            &&& end > 0 ==> !parts(path, text[end - 1])
        }),
    decreases upto,
{
    if upto > 0 && parts(path, text[upto - 1]) {
        ends(text, path, upto - 1);
    }
}

proof fn starts(text: Seq<char>, path: bool, upto: int)
    requires
        0 <= upto <= text.len(),
    ensures
        ({
            let start = part_start(
                text,
                if path {
                    Separator::Slash
                } else {
                    Separator::Dot
                },
                upto,
            );
            &&& 0 <= start <= upto
            &&& forall|i: int| start <= i < upto ==> !parts(path, #[trigger] text[i])
            &&& start == 0 || parts(path, text[start - 1])
        }),
    decreases upto,
{
    if upto > 0 && !parts(path, text[upto - 1]) {
        starts(text, path, upto - 1);
    }
}

proof fn the_last_part(text: Seq<char>, path: bool)
    ensures
        is_last_part(
            text,
            path,
            crate::features::profiles::names::last_part(
                text,
                if path {
                    Separator::Slash
                } else {
                    Separator::Dot
                },
            ),
        ),
{
    let separator = if path {
        Separator::Slash
    } else {
        Separator::Dot
    };
    ends(text, path, text.len() as int);
    let end = part_end(text, separator, text.len() as int);
    if end > 0 {
        starts(text, path, end);
        let start = part_start(text, separator, end);
        if start == end {
            assert(parts(path, text[end - 1]));
        }
        assert(text.subrange(start, end) == crate::features::profiles::names::last_part(
            text,
            separator,
        ));
    }
}

/// Whether `text` is `name` with `.exe` behind it some number of times.
pub open spec fn is_program(name: Seq<char>, text: Seq<char>) -> bool
    decreases text.len(),
{
    name == text || text.len() >= 4 && text.skip(text.len() - 4) == ".exe"@ && is_program(
        name,
        text.take(text.len() - 4),
    )
}

proof fn programs(text: Seq<char>)
    ensures
        is_program(without_exe(text), text),
        !(without_exe(text).len() >= 4 && without_exe(text).skip(without_exe(text).len() - 4)
            == ".exe"@),
    decreases text.len(),
{
    if text.len() >= 4 && text.skip(text.len() - 4) == ".exe"@ {
        programs(text.take(text.len() - 4));
    }
}

/// A dotted identifier reads as its last part; that of a program as its file
/// name without `.exe`.
pub proof fn identifiers_read_as_their_last_part(identifier: &str, name: String) -> (file: Seq<char>)
    requires
        call_ensures(friendly_app_name, (identifier,), name),
    ensures
        !"exe:"@.is_prefix_of(identifier@) ==> is_last_part(identifier@, false, name@),
        "exe:"@.is_prefix_of(identifier@) ==> is_last_part(identifier@.skip(4), true, file)
            && is_program(name@, file) && !(name@.len() >= 4 && name@.skip(name@.len() - 4)
            == ".exe"@),
{
    if "exe:"@.is_prefix_of(identifier@) {
        the_last_part(identifier@.skip(4), true);
        let file = crate::features::profiles::names::last_part(
            identifier@.skip(4),
            Separator::Slash,
        );
        programs(file);
        file
    } else {
        the_last_part(identifier@, false);
        name@
    }
}

proof fn marks_first(name: Seq<char>, from: int, i: int)
    requires
        0 <= from <= i <= name.len(),
        forall|k: int| from <= k < i ==> white(#[trigger] name[k]),
        i < name.len() ==> !white(name[i]),
    ensures
        first_mark(name, from) == if i < name.len() {
            Some(name[i])
        } else {
            None
        },
    decreases i - from,
{
    if from < i {
        assert(white(name[from]));
        marks_first(name, from + 1, i);
    }
}

/// The initial of a name is its first character that is not white space; a name
/// without one has a question mark.
pub proof fn the_initial_is_the_first_mark(name: &str, initial: char, i: int)
    requires
        call_ensures(monogram, (name,), initial),
        0 <= i <= name@.len(),
        forall|k: int| 0 <= k < i ==> white(#[trigger] name@[k]),
        i < name@.len() ==> !white(name@[i]),
    ensures
        initial == if i < name@.len() {
            name@[i]
        } else {
            '?'
        },
{
    marks_first(name@, 0, i);
}

/// No visible character of ASCII is white space, and its spaces are.
pub proof fn ascii_spaces_are_white(c: char, found: bool)
    requires
        call_ensures(crate::features::profiles::names::is_white, (c,), found),
    ensures
        '!' <= c <= '~' ==> !found,
        c == ' ' || c == '\t' || c == '\n' || c == '\r' ==> found,
{
}

proof fn leads(text: Seq<char>, from: int)
    requires
        0 <= from <= text.len(),
    ensures
        from <= leading_end(text, from) <= text.len(),
        forall|i: int| from <= i < leading_end(text, from) ==> white(#[trigger] text[i]),
        leading_end(text, from) < text.len() ==> !white(text[leading_end(text, from)]),
    decreases text.len() - from,
{
    if from < text.len() && white(text[from]) {
        leads(text, from + 1);
    }
}

proof fn trails(text: Seq<char>, upto: int)
    requires
        0 <= upto <= text.len(),
    ensures
        0 <= trailing_start(text, upto) <= upto,
        forall|i: int| trailing_start(text, upto) <= i < upto ==> white(#[trigger] text[i]),
        trailing_start(text, upto) > 0 ==> !white(text[trailing_start(text, upto) - 1]),
    decreases upto,
{
    if upto > 0 && white(text[upto - 1]) {
        trails(text, upto - 1);
    }
}

/// A trimmed text is the text between its white ends, and has none of its own.
pub proof fn only_white_ends_are_trimmed(text: &str, trimmed: String) -> (start: int)
    requires
        call_ensures(trim, (text,), trimmed),
    ensures
        0 <= start,
        start + trimmed@.len() <= text@.len(),
        trimmed@ == text@.subrange(start, start + trimmed@.len()),
        forall|i: int|
            0 <= i < start || start + trimmed@.len() <= i < text@.len() ==> white(
                #[trigger] text@[i],
            ),
        trimmed@.len() > 0 ==> !white(trimmed@[0]) && !white(trimmed@.last()),
{
    leads(text@, 0);
    trails(text@, text@.len() as int);
    let start = leading_end(text@, 0);
    let end = trailing_start(text@, text@.len() as int);
    if start < end {
        start
    } else {
        assert(trimmed@ =~= text@.subrange(0, 0));
        assert forall|i: int| 0 <= i < text@.len() implies white(#[trigger] text@[i]) by {
            if i >= start {
                assert(i >= end);
            }
        }
        0
    }
}

/// Whether a search finds a choice: in its name or in what it goes by, without
/// regard to case. An empty one finds all.
pub open spec fn searched(choice: ProfileChoice, query: Seq<char>) -> bool {
    ||| query.len() == 0
    ||| within(lowercase(choice.name@), query)
    ||| within(lowercase(choice.app@), query)
}

/// A choice is found by a search in its name or its identifier.
pub proof fn choices_are_found_by_both_names(choice: &ProfileChoice, query: &str, matches: bool)
    requires
        call_ensures(profile_matches_query, (choice, query), matches),
    ensures
        matches == searched(*choice, query@),
{
}

proof fn filter_keeps(choices: Seq<ProfileChoice>, query: Seq<char>, upto: int, i: int)
    requires
        0 <= i < upto <= choices.len(),
        searched(choices[i], query),
    ensures
        filtered(choices, query, upto).contains(choices[i]),
    decreases upto,
{
    let rest = filtered(choices, query, upto - 1);
    let all = filtered(choices, query, upto);
    if i < upto - 1 {
        filter_keeps(choices, query, upto - 1, i);
        let at = choose|at: int| 0 <= at < rest.len() && rest[at] == choices[i];
        assert(all[at] == choices[i]);
    } else {
        assert(all.last() == choices[i]);
    }
}

proof fn filter_is_in_order(choices: Seq<ProfileChoice>, query: Seq<char>, upto: int, a: int, b: int) -> (
    from: (int, int))
    requires
        0 <= upto <= choices.len(),
        0 <= a <= b < filtered(choices, query, upto).len(),
    ensures
        0 <= from.0 <= from.1 < upto,
        a < b ==> from.0 < from.1,
        filtered(choices, query, upto)[a] == choices[from.0],
        filtered(choices, query, upto)[b] == choices[from.1],
        searched(choices[from.0], query),
    decreases upto,
{
    let rest = filtered(choices, query, upto - 1);
    if b < rest.len() {
        filter_is_in_order(choices, query, upto - 1, a, b)
    } else if a < rest.len() {
        let from = filter_is_in_order(choices, query, upto - 1, a, a);
        (from.0, upto - 1)
    } else {
        (upto - 1, upto - 1)
    }
}

/// The picker keeps the recent applications that a search finds, all of them, in
/// their order. It unfolds the installed ones for every search, and says so
/// where there is nothing to show.
pub proof fn the_picker_shows_what_is_found(
    recent: &Vec<ProfileChoice>,
    catalog: &CatalogPresentation,
    expanded: bool,
    query: &str,
    content: AddAppContent,
    i: int,
    a: int,
    b: int,
)
    requires
        call_ensures(add_app_content, (recent, catalog, expanded, query), content),
    ensures
        0 <= i < recent@.len() && searched(recent@[i], query@) ==> content.recent@.contains(
            recent@[i],
        ),
        0 <= a < b < content.recent@.len() ==> exists|m: int, n: int|
            0 <= m < n < recent@.len() && content.recent@[a] == #[trigger] recent@[m]
                && content.recent@[b] == #[trigger] recent@[n],
        0 <= a < content.recent@.len() ==> searched(content.recent@[a], query@),
        content.show_applications <==> expanded || query@.len() > 0,
        !content.show_applications ==> content.applications@.len() == 0 && content.notice is None,
        content.show_applications ==> match *catalog {
            CatalogPresentation::Loading => content.applications@.len() == 0 && content.notice
                == Some(CatalogNotice::Loading),
            CatalogPresentation::Failed => content.applications@.len() == 0 && content.notice
                == Some(CatalogNotice::Unavailable),
            CatalogPresentation::Ready(choices) => {
                &&& 0 <= i < choices@.len() && searched(choices@[i], query@)
                    ==> content.applications@.contains(choices@[i])
                &&& 0 <= a < content.applications@.len() ==> searched(
                    content.applications@[a],
                    query@,
                ) && choices@.contains(content.applications@[a])
                &&& content.notice == if content.applications@.len() == 0 && (query@.len() == 0
                    || content.recent@.len() == 0) {
                    Some(CatalogNotice::NothingFound)
                } else {
                    None
                }
            },
        },
{
    let n = recent@.len() as int;
    if 0 <= i < n && searched(recent@[i], query@) {
        filter_keeps(recent@, query@, n, i);
    }
    if 0 <= a < content.recent@.len() {
        let from = filter_is_in_order(recent@, query@, n, a, a);
    }
    if 0 <= a < b < content.recent@.len() {
        let from = filter_is_in_order(recent@, query@, n, a, b);
        assert(content.recent@[a] == recent@[from.0] && content.recent@[b] == recent@[from.1]);
    }
    if content.show_applications {
        if let CatalogPresentation::Ready(choices) = *catalog {
            let m = choices@.len() as int;
            if 0 <= i < m && searched(choices@[i], query@) {
                filter_keeps(choices@, query@, m, i);
            }
            if 0 <= a < content.applications@.len() {
                let from = filter_is_in_order(choices@, query@, m, a, a);
                assert(choices@[from.0] == content.applications@[a]);
            }
        }
    }
}

proof fn recent_are_kept(
    recent: Seq<RecentApp>,
    profiles: Seq<ProfileChoice>,
    editing: Option<Seq<char>>,
    upto: int,
    i: int,
)
    requires
        0 <= i < upto <= recent.len(),
        editing != Some(recent[i].app@),
        forall|k: int|
            0 <= k < profiles.len() && (#[trigger] profiles[k]).app@ == recent[i].app@
                ==> !profiles[k].persisted,
    ensures
        offered(recent_choices(recent, profiles, editing, upto), recent[i].app@),
    decreases upto,
{
    let rest = recent_choices(recent, profiles, editing, upto - 1);
    let all = recent_choices(recent, profiles, editing, upto);
    if i < upto - 1 {
        recent_are_kept(recent, profiles, editing, upto - 1, i);
        let c = choose|c: int| 0 <= c < rest.len() && (#[trigger] rest[c]).app@ == recent[i].app@;
        assert(all[c].app@ == recent[i].app@);
    } else {
        assert(all[rest.len() as int].app@ == recent[i].app@);
    }
}

proof fn recent_were_seen(
    recent: Seq<RecentApp>,
    profiles: Seq<ProfileChoice>,
    editing: Option<Seq<char>>,
    upto: int,
    a: int,
) -> (k: int)
    requires
        0 <= upto <= recent.len(),
        0 <= a < recent_choices(recent, profiles, editing, upto).len(),
    ensures
        0 <= k < upto,
        recent_choices(recent, profiles, editing, upto)[a].app@ == recent[k].app@,
        recent_choices(recent, profiles, editing, upto)[a].name@ == recent[k].name@,
        !recent_choices(recent, profiles, editing, upto)[a].persisted,
        editing != Some(recent[k].app@),
        forall|m: int|
            0 <= m < profiles.len() && (#[trigger] profiles[m]).app@ == recent[k].app@
                ==> !profiles[m].persisted,
    decreases upto,
{
    let rest = recent_choices(recent, profiles, editing, upto - 1);
    if a < rest.len() {
        recent_were_seen(recent, profiles, editing, upto - 1, a)
    } else {
        upto - 1
    }
}

proof fn unreported_apps_were_not_seen(recent: Seq<RecentApp>, app: Seq<char>, from: int, r: int)
    requires
        0 <= from <= r < recent.len(),
        recent[r].app@ == app,
    ensures
        reported_name(recent, app, from) is Some,
    decreases r - from,
{
    if from < r && recent[from].app@ != app {
        unreported_apps_were_not_seen(recent, app, from + 1, r);
    }
}

/// The catalog offers what is not in use: no application that has a profile, was
/// seen lately or is being edited, and none that was seen lately under another of
/// its names.
pub proof fn applications_in_use_are_not_offered_again(
    editing_app: Option<&str>,
    saved: &Vec<ProfileChoice>,
    recent: &Vec<RecentApp>,
    applications: Vec<Application>,
    preferred: IdentityKind,
    model: ProfileScopeModel,
    a: int,
    b: int,
    r: int,
)
    requires
        call_ensures(
            profile_scope_model,
            (editing_app, saved, recent, &CatalogLoad::Ready(applications), preferred),
            model,
        ),
    ensures
        model.catalog is Ready,
        ({
            let choices = model.catalog->Ready_0@;
            0 <= a < choices.len() ==> {
                &&& !choices[a].persisted
                &&& optional_view(editing_app) != Some(choices[a].app@)
                &&& 0 <= r < recent@.len() ==> recent@[r].app@ != choices[a].app@
                &&& 0 <= b < model.profiles@.len() && model.profiles@[b].persisted
                    ==> model.profiles@[b].app@ != choices[a].app@
                &&& exists|m: int|
                    0 <= m < applications@.len() && (#[trigger] applications@[m]).name@
                        == choices[a].name@ && forall|k: int|
                        0 <= k < applications@[m].identities@.len() && 0 <= r < recent@.len() ==> (
                        #[trigger] applications@[m].identities@[k]).value@ != recent@[r].app@
            }
        }),
{
    let editing = optional_view(editing_app);
    let load = CatalogLoad::Ready(applications);
    let (observed, unavailable) = choose|observed: Seq<String>, unavailable: Seq<String>|
        #![trigger presents(model.catalog, load, observed, unavailable, preferred)]
        (forall|app: Seq<char>| #[trigger]
            lists(observed, app) == (reported_name(recent@, app, 0) is Some)) && (forall|
            app: Seq<char>,
        | #[trigger]
            lists(unavailable, app) == taken(app, model.profiles@, recent@, editing)) && presents(
            model.catalog,
            load,
            observed,
            unavailable,
            preferred,
        );
    offered_by_name(applications, observed, unavailable, preferred, model.catalog, 0, 0, a, a);
    let choices = model.catalog->Ready_0@;
    if 0 <= a < choices.len() {
        let app = choices[a].app@;
        assert(!lists(unavailable, app));
        if 0 <= r < recent@.len() && recent@[r].app@ == app {
            unreported_apps_were_not_seen(recent@, app, 0, r);
        }
        let (m, n) = choose|m: int, n: int|
            #![trigger applications@[m].identities@[n]]
            0 <= m < applications@.len() && goes_by(applications@[m], observed, preferred, n)
                && choices[a].app@ == applications@[m].identities@[n].value@ && choices[a].name@
                == applications@[m].name@;
        let names = applications@[m].identities@;
        assert forall|k: int| 0 <= k < names.len() && 0 <= r < recent@.len() implies (
        #[trigger] names[k]).value@ != recent@[r].app@ by {
            if names[k].value@ == recent@[r].app@ {
                unreported_apps_were_not_seen(recent@, names[k].value@, 0, r);
                assert(lists(observed, names[k].value@));
                assert(lists(observed, names[n].value@));
                assert(lists(unavailable, app));
            }
        }
        assert(applications@[m].name@ == choices[a].name@);
    }
}

/// The profile bar shows every saved profile as it is, and the open one, which
/// stands among them though it is not saved; nothing else; and all by name
/// without regard to case. An application that was seen is offered for a new
/// profile unless it has one or its profile is open.
pub proof fn the_bar_shows_saved_and_open_profiles(
    editing_app: Option<&str>,
    saved: &Vec<ProfileChoice>,
    recent: &Vec<RecentApp>,
    load: &CatalogLoad,
    preferred: IdentityKind,
    model: ProfileScopeModel,
    i: int,
    a: int,
    b: int,
)
    requires
        call_ensures(
            profile_scope_model,
            (editing_app, saved, recent, load, preferred),
            model,
        ),
    ensures
        0 <= i < saved@.len() ==> model.profiles@.contains(saved@[i]),
        editing_app matches Some(app) ==> exists|c: int|
            0 <= c < model.profiles@.len() && (#[trigger] model.profiles@[c]).app@ == app@,
        0 <= a < model.profiles@.len() ==> saved@.contains(model.profiles@[a]) || (editing_app
            matches Some(app) && model.profiles@[a].app@ == app@ && !model.profiles@[a].persisted
            && model.profiles@[a].override_count == 0),
        0 <= a < b < model.profiles@.len() ==> comes_first(
            lowercase(model.profiles@[a].name@),
            lowercase(model.profiles@[b].name@),
        ),
        0 <= i < recent@.len() && optional_view(editing_app) != Some(recent@[i].app@) && (forall|
            k: int,
        |
            0 <= k < model.profiles@.len() && (#[trigger] model.profiles@[k]).app@
                == recent@[i].app@ ==> !model.profiles@[k].persisted) ==> exists|c: int|
            0 <= c < model.recent@.len() && (#[trigger] model.recent@[c]).app@ == recent@[i].app@,
        0 <= a < model.recent@.len() ==> optional_view(editing_app) != Some(model.recent@[a].app@),
        0 <= a < model.recent@.len() && 0 <= b < model.profiles@.len() && model.profiles@[b].persisted
            ==> model.recent@[a].app@ != model.profiles@[b].app@,
{
    let editing = optional_view(editing_app);
    let open = choose|open: Seq<ProfileChoice>| #[trigger]
        with_open(open, saved@, editing, recent@) && sorted_on(
            model.profiles@,
            open,
            lower_names(open),
        );
    if 0 <= i < saved@.len() {
        assert(open[i] == saved@[i]) by {
            if open.len() == saved@.len() + 1 {
                assert(open.drop_last()[i] == open[i]);
            }
        }
        let at = sorting_keeps(model.profiles@, open, lower_names(open), 0, i);
        assert(model.profiles@[at.1] == saved@[i]);
    }
    if let Some(app) = editing_app {
        crate::features::profiles::model::the_open_profile_has_a_tab(open, saved@, app@, recent@);
        let c = choose|c: int| 0 <= c < open.len() && (#[trigger] open[c]).app@ == app@;
        let at = sorting_keeps(model.profiles@, open, lower_names(open), 0, c);
        assert(model.profiles@[at.1].app@ == app@);
    }
    if 0 <= a < model.profiles@.len() {
        let from = sorting_keeps(model.profiles@, open, lower_names(open), a, 0);
        if from.0 < saved@.len() {
            assert(open[from.0] == saved@[from.0]) by {
                if open.len() == saved@.len() + 1 {
                    assert(open.drop_last()[from.0] == open[from.0]);
                }
            }
        }
    }
    if 0 <= a < b < model.profiles@.len() {
        let order = choose|order: Seq<usize>| #[trigger]
            stable_order(lower_names(open), order) && arranged(model.profiles@, open, order);
        assert(order[a] < open.len() && order[b] < open.len());
        assert(model.profiles@[a] == open[order[a] as int]);
        assert(model.profiles@[b] == open[order[b] as int]);
        order_is_decided_at_the_first_difference(
            lowercase(model.profiles@[a].name@),
            lowercase(model.profiles@[b].name@),
        );
    }
    let n = recent@.len() as int;
    if 0 <= i < n && editing != Some(recent@[i].app@) && (forall|k: int|
        0 <= k < model.profiles@.len() && (#[trigger] model.profiles@[k]).app@ == recent@[i].app@
            ==> !model.profiles@[k].persisted) {
        recent_are_kept(recent@, model.profiles@, editing, n, i);
    }
    if 0 <= a < model.recent@.len() {
        let k = recent_were_seen(recent@, model.profiles@, editing, n, a);
        if 0 <= b < model.profiles@.len() {
            assert(model.profiles@[b].app@ == recent@[k].app@ ==> !model.profiles@[b].persisted);
        }
    }
}

/// The bar of a device shows each of its saved profiles, by its application's
/// name, and the profile that is open; nothing else.
pub proof fn the_bar_shows_each_saved_profile(
    state: &AppState,
    saved: &Vec<SavedProfile>,
    recent: &Vec<RecentApp>,
    load: &CatalogLoad,
    preferred: IdentityKind,
    model: ProfileScopeModel,
    tabs: Vec<ProfileTab>,
    i: int,
    app: &str,
    name: String,
    a: int,
)
    requires
        call_ensures(
            device_profile_scope_bar,
            (Some(state), saved, recent, load, preferred),
            Some((model, tabs)),
        ),
        0 <= i < saved@.len() ==> app@ == saved@[i].app@,
        call_ensures(app_name, (recent, app), name),
    ensures
        0 <= i < saved@.len() ==> exists|c: int|
            0 <= c < model.profiles@.len() && (#[trigger] model.profiles@[c]).app@ == app@
                && model.profiles@[c].name@ == name@ && model.profiles@[c].override_count
                == saved@[i].override_count && model.profiles@[c].persisted,
        0 <= a < model.profiles@.len() && !model.profiles@[a].persisted ==> (
        state.editing_app matches Some(open) && model.profiles@[a].app@ == open@),
        saved@.len() <= model.profiles@.len() <= saved@.len() + 1,
{
    let editing = state.scope();
    let (choices, open) = choose|choices: Seq<ProfileChoice>, open: Seq<ProfileChoice>|
        #![trigger with_open(open, choices, editing, recent@)]
        lists_saved(choices, saved@, recent@) && with_open(open, choices, editing, recent@)
            && sorted_on(model.profiles@, open, lower_names(open));
    let first = sorting_keeps(model.profiles@, open, lower_names(open), a, i);
    if 0 <= i < saved@.len() {
        assert(choices[i].app == saved@[i].app);
        assert(open[i] == choices[i]) by {
            if open.len() == choices.len() + 1 {
                assert(open.drop_last()[i] == open[i]);
            }
        }
        assert(model.profiles@[first.1].app@ == app@);
    }
    if 0 <= a < model.profiles@.len() {
        let at = first.0;
        if at < choices.len() {
            assert(open[at] == choices[at]) by {
                if open.len() == choices.len() + 1 {
                    assert(open.drop_last()[at] == open[at]);
                }
            }
            assert(choices[at].persisted);
        } else {
            assert(open[at] == open.last());
        }
    }
}

} // verus!
