//! What the profile bar and its picker show.

use crate::features::profiles::catalog::{
    is_offered, preferred_identity_kind, preferred_in_session, sort_by_name, CatalogLoad,
    IdentityKind, Platform, ProfileChoice,
};
use crate::features::profiles::model::{
    app_name, default_tab, device_profile_scope_bar, profile_canvas_status, profile_scope_content,
    profile_summary, profile_tab, removal_key, remove_profile_question, saved_choices,
    CanvasStatus, ProfileEditor, ProfileScopeModel, ProfileTab, RecentApp, SavedProfile,
};
use crate::features::profiles::picker::{
    application_list_height, matches_lowered, search_query, AppIconState, ProfileIconCache,
};
use crate::features::profiles::names::trim;
use crate::order::stable_order;
use crate::state::AppState;
use crate::text::lowercase;
use vstd::prelude::*;

verus! {

/// A system knows applications by one sort of name. Under Linux it is what the
/// window system reported, or else the window class under X11 and GNOME, and the
/// Wayland id elsewhere.
pub proof fn each_system_has_its_names(
    platform: Platform,
    runtime: Option<IdentityKind>,
    x11: bool,
    gnome: bool,
    kind: IdentityKind,
)
    requires
        call_ensures(preferred_in_session, (platform, runtime, x11, gnome), kind),
    ensures
        platform == Platform::MacOs <==> kind == IdentityKind::MacBundleIdentifier,
        platform == Platform::Windows <==> kind == IdentityKind::WindowsExecutablePath,
        platform == Platform::Linux && runtime == Some(IdentityKind::LinuxStartupWmClass) ==> kind
            == IdentityKind::LinuxStartupWmClass,
        platform == Platform::Linux && runtime == Some(IdentityKind::LinuxWaylandAppId) ==> kind
            == IdentityKind::LinuxWaylandAppId,
        platform == Platform::Linux && runtime != Some(IdentityKind::LinuxStartupWmClass) && runtime
            != Some(IdentityKind::LinuxWaylandAppId) ==> (kind == IdentityKind::LinuxStartupWmClass
            <==> x11 || gnome) && (kind == IdentityKind::LinuxWaylandAppId <==> !x11 && !gnome),
{
}

/// The session's desktop is told by its name: GNOME wherever the name holds it,
/// in either case.
pub proof fn gnome_is_told_by_its_name(
    platform: Platform,
    runtime: Option<IdentityKind>,
    desktop: &str,
    x11: bool,
    kind: IdentityKind,
    gnome: bool,
    other: IdentityKind,
    at: int,
)
    requires
        call_ensures(preferred_identity_kind, (platform, runtime, desktop, x11), kind),
        call_ensures(preferred_in_session, (platform, runtime, x11, gnome), other),
        gnome <==> exists|k: int|
            0 <= k && k + 5 <= lowercase(desktop@).len() && #[trigger] lowercase(desktop@).subrange(
                k,
                k + 5,
            ) == "gnome"@,
    ensures
        kind == other,
{
    reveal_strlit("gnome");
    let text = lowercase(desktop@);
    let needle = "gnome"@;
    assert(needle.len() == 5);
    if gnome {
        let k = choose|k: int| 0 <= k && k + 5 <= text.len() && #[trigger] text.subrange(k, k + 5)
            == needle;
        assert(crate::text::stands_at(text, k, needle));
    }
    if crate::text::within(text, needle) {
        let k = choose|k: int| #[trigger] crate::text::stands_at(text, k, needle);
        assert(text.subrange(k, k + 5) =~= needle);
    }
}

/// A choice is offered if one of the list is for that application.
pub proof fn an_offered_application_is_listed(
    choices: &Vec<ProfileChoice>,
    app: &str,
    found: bool,
    i: int,
)
    requires
        call_ensures(is_offered, (choices, app), found),
    ensures
        0 <= i < choices@.len() && choices@[i].app@ == app@ ==> found,
        found ==> exists|j: int| 0 <= j < choices@.len() && (#[trigger] choices@[j]).app@ == app@,
{
}

/// Sorting by name keeps every choice, and keeps the order of equal names.
pub proof fn sorting_keeps_every_choice(
    choices: &Vec<ProfileChoice>,
    sorted: Vec<ProfileChoice>,
    i: int,
) -> (order: Seq<usize>)
    requires
        call_ensures(sort_by_name, (choices,), sorted),
    ensures
        sorted@.len() == choices@.len(),
        order.len() == choices@.len(),
        order.no_duplicates(),
        0 <= i < sorted@.len() ==> order[i] < choices@.len() && sorted@[i]
            == choices@[order[i] as int],
        0 <= i && i + 1 < sorted@.len() && lowercase(sorted@[i].name@) == lowercase(
            sorted@[i + 1].name@,
        ) ==> order[i] < order[i + 1],
{
    let keys = crate::features::profiles::catalog::lower_names(choices@);
    let order = choose|order: Seq<usize>| #[trigger]
        stable_order(keys, order) && crate::features::profiles::catalog::arranged(
            sorted@,
            choices@,
            order,
        );
    assert(order.no_duplicates()) by {
        assert forall|a: int, b: int|
            0 <= a < order.len() && 0 <= b < order.len() && a != b implies order[a] != order[b] by {
            if a < b {
                assert(order[a] != order[b]);
            } else {
                assert(order[b] != order[a]);
            }
        }
    }
    if 0 <= i < sorted@.len() {
        assert(order[i] < keys.len());
        if i + 1 < sorted@.len() {
            assert(order[i + 1] < keys.len());
            assert(keys[order[i] as int] == lowercase(sorted@[i].name@));
            assert(keys[order[i + 1] as int] == lowercase(sorted@[i + 1].name@));
        }
    }
    order
}

/// Saved profiles are shown by their application's name, with their overrides.
pub proof fn saved_profiles_are_shown(
    saved: &Vec<SavedProfile>,
    recent: &Vec<RecentApp>,
    choices: Vec<ProfileChoice>,
    i: int,
    app: &str,
    name: String,
)
    requires
        call_ensures(saved_choices, (saved, recent), choices),
        0 <= i < saved@.len(),
        app@ == saved@[i].app@,
        call_ensures(app_name, (recent, app), name),
    ensures
        choices@.len() == saved@.len(),
        choices@[i].app@ == saved@[i].app@,
        choices@[i].name@ == name@,
        choices@[i].override_count == saved@[i].override_count,
        choices@[i].persisted,
{
    assert(choices@[i].app == choices@[i].app);
}

/// The summary counts what the open profile overrides.
pub proof fn the_summary_counts_overrides(
    editor: ProfileEditor,
    app: Option<&str>,
    override_count: usize,
    message: &'static str,
)
    requires
        call_ensures(profile_summary, (editor, app, override_count), message),
    ensures
        editor == ProfileEditor::Buttons ==> {
            &&& app is None ==> message@
                == "Default bindings apply unless an app profile overrides them."@
            &&& app is Some && override_count == 0 ==> message@
                == "No overrides yet. Select a button to customize for %{app}."@
            &&& app is Some && override_count == 1 ==> message@
                == "%{app} overrides 1 button. Others inherit Default."@
            &&& app is Some && override_count > 1 ==> message@
                == "%{app} overrides %{count} buttons. Others inherit Default."@
        },
        editor == ProfileEditor::Device ==> {
            &&& app is None ==> message@
                == "Default settings apply unless an application profile overrides them."@
            &&& app is Some && override_count == 0 ==> message@
                == "No overrides yet. Changes here customize %{app}."@
            &&& app is Some && override_count == 1 ==> message@
                == "%{app} overrides 1 setting group. Others inherit Default."@
            &&& app is Some && override_count > 1 ==> message@
                == "%{app} overrides %{count} setting groups. Others inherit Default."@
        },
{
}

/// The status under a device names the open profile and counts its overrides. A
/// probe has none.
pub proof fn the_status_names_the_open_profile(
    editor: ProfileEditor,
    state: &AppState,
    recent: &Vec<RecentApp>,
    override_count: usize,
    active: Option<String>,
    status: Option<CanvasStatus>,
    i: usize,
    app: Option<&str>,
    message: &'static str,
    name: String,
)
    requires
        call_ensures(
            profile_canvas_status,
            (editor, Some(state), recent, override_count, active),
            status,
        ),
        state.devices.selected == Some(i),
        i < state.devices.records@.len(),
        state.editing_app is Some <==> app is Some,
        state.editing_app matches Some(open) ==> (app matches Some(app) && app@ == open@),
        call_ensures(profile_summary, (editor, app, override_count), message),
        app matches Some(app) ==> call_ensures(app_name, (recent, app), name),
    ensures
        status is Some <==> state.devices.records@[i as int].persistent,
        status matches Some(status) ==> {
            &&& status.summary@ == message@
            &&& status.count == override_count
            &&& status.active == active
            &&& status.app is Some <==> app is Some
            &&& status.app matches Some(shown) ==> shown@ == name@
        },
{
}

/// What is asked before a profile goes.
pub proof fn removing_counts_overrides(profile: &ProfileChoice, message: &'static str)
    requires
        call_ensures(remove_profile_question, (profile,), message),
    ensures
        profile.override_count == 1 ==> message@ == "Remove %{app} profile and its 1 override?"@,
        profile.override_count != 1 ==> message@
            == "Remove %{app} profile and its %{count} overrides?"@,
{
}

/// The default profile's tab comes first and stays; the others follow the list,
/// and can be removed where they are saved.
pub proof fn tabs_follow_the_profiles(
    model: &ProfileScopeModel,
    app: Option<&str>,
    tabs: Vec<ProfileTab>,
    first: ProfileTab,
    k: int,
    profile: &ProfileChoice,
    tab: ProfileTab,
)
    requires
        call_ensures(profile_scope_content, (model, app), tabs),
        call_ensures(default_tab, (app,), first),
        0 <= k < model.profiles@.len(),
        *profile == model.profiles@[k],
        call_ensures(profile_tab, (profile, app), tab),
    ensures
        tabs@.len() == model.profiles@.len() + 1,
        tabs@[0] == first,
        tabs@[k + 1] == tab,
        first.selected <==> app is None,
        !first.removable,
        tab.selected <==> (app matches Some(app) && app@ == profile.app@),
        tab.removable <==> profile.persisted,
{
    assert(tabs@[k + 1] == tabs@[k + 1]);
}

/// The bar is there for a physical device only, with a tab for each profile; a
/// profile is removed from the selected device's settings.
pub proof fn the_bar_is_for_physical_devices(
    state: &AppState,
    saved: &Vec<SavedProfile>,
    recent: &Vec<RecentApp>,
    load: &CatalogLoad,
    preferred: IdentityKind,
    bar: Option<(ProfileScopeModel, Vec<ProfileTab>)>,
    key: Option<String>,
    i: usize,
)
    requires
        call_ensures(device_profile_scope_bar, (Some(state), saved, recent, load, preferred), bar),
        call_ensures(removal_key, (Some(state),), key),
        state.devices.selected == Some(i),
        i < state.devices.records@.len(),
    ensures
        ({
            let record = state.devices.records@[i as int];
            &&& bar is Some <==> record.persistent
            &&& key is Some <==> record.persistent
            &&& key matches Some(key) ==> key@ == record.config_key@
            &&& bar matches Some((model, tabs)) ==> tabs@.len() == model.profiles@.len() + 1 && (
            tabs@[0].selected <==> state.editing_app is None)
        }),
{
}

/// The list of applications grows with its rows up to six.
pub proof fn the_list_grows_up_to_six_rows(rows: usize, height: u32, one: u32)
    requires
        call_ensures(application_list_height, (rows,), height),
        call_ensures(application_list_height, (1usize,), one),
    ensures
        one == 44_000,
        rows <= 6 ==> height == rows * one,
        rows >= 6 ==> height == 6 * one,
{
}

/// What is searched for is what was typed, without the space around it and in
/// lower case.
pub proof fn a_search_ignores_case_and_space(search: &str, query: String, trimmed: String)
    requires
        call_ensures(search_query, (search,), query),
        call_ensures(trim, (search,), trimmed),
    ensures
        query@ == lowercase(trimmed@),
{
}

/// An empty search finds everything; any other what holds it in a name.
pub proof fn a_search_looks_into_both_names(
    name: &str,
    app: &str,
    query: &str,
    found: bool,
    at: int,
)
    requires
        call_ensures(matches_lowered, (name, app, query), found),
    ensures
        query@.len() == 0 ==> found,
        0 <= at && at + query@.len() <= name@.len() && name@.subrange(at, at + query@.len())
            == query@ ==> found,
        0 <= at && at + query@.len() <= app@.len() && app@.subrange(at, at + query@.len())
            == query@ ==> found,
        query@.len() > name@.len() && query@.len() > app@.len() ==> !found,
{
    let q = query@;
    if 0 <= at && at + q.len() <= name@.len() && name@.subrange(at, at + q.len()) == q {
        assert(crate::text::stands_at(name@, at, q));
    }
    if 0 <= at && at + q.len() <= app@.len() && app@.subrange(at, at + q.len()) == q {
        assert(crate::text::stands_at(app@, at, q));
    }
}

/// An icon is looked for once, and is there or missing once that is known.
pub proof fn an_icon_is_looked_for_once(
    cache: &mut ProfileIconCache,
    again: &mut ProfileIconCache,
    done: &mut ProfileIconCache,
    app: &str,
    first: bool,
    second: bool,
    found: bool,
    after: &ProfileIconCache,
    icon: AppIconState,
)
    requires
        call_ensures(ProfileIconCache::ensure_icon, (cache, app), first),
        *old(again) == *final(cache),
        call_ensures(ProfileIconCache::ensure_icon, (again, app), second),
        call_ensures(ProfileIconCache::resolved, (done, app, found), ()),
        *after == *final(done),
        call_ensures(ProfileIconCache::state, (after, app), icon),
    ensures
        old(cache).finished@.contains_key(app@) ==> !first,
        old(cache).in_flight@.contains_key(app@) ==> !first,
        !old(cache).finished@.contains_key(app@) && !old(cache).in_flight@.contains_key(app@)
            ==> first,
        !second,
        found ==> icon == AppIconState::Ready,
        !found ==> icon == AppIconState::Missing,
        !final(done).in_flight@.contains_key(app@),
{
}

/// An icon that is not known yet is loading.
pub proof fn an_unknown_icon_is_loading(cache: &ProfileIconCache, app: &str, icon: AppIconState)
    requires
        call_ensures(ProfileIconCache::state, (cache, app), icon),
    ensures
        icon == AppIconState::Loading <==> !cache.finished@.contains_key(app@),
        cache.finished@.contains_key(app@) ==> (icon == AppIconState::Ready
            <==> cache.finished@[app@]),
{
}

} // verus!
