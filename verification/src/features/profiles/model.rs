//! What the profile bar shows.

use crate::features::profiles::catalog::{
    available_profiles, is_offered, lower_names, offered, presents, sort_by_name, sorted_on,
    CatalogLoad, CatalogPresentation, IdentityKind, ProfileChoice,
};
use crate::features::profiles::names::{friendly_app_name, friendly_name};
use crate::state::AppState;
use crate::table::{list_contains, lists};
use crate::text::{optional_view, same_text};
use vstd::prelude::*;

verus! {

/// An application that was seen in this session.
#[derive(Debug)]
pub struct RecentApp {
    pub app: String,
    pub name: String,
}

/// The name that an application was last reported under, from position `from`
/// on.
pub open spec fn reported_name(recent: Seq<RecentApp>, app: Seq<char>, from: int) -> Option<Seq<char>>
    decreases recent.len() - from,
{
    if from < 0 || from >= recent.len() {
        None
    } else if recent[from].app@ == app {
        Some(recent[from].name@)
    } else {
        reported_name(recent, app, from + 1)
    }
}

/// The name that an application is shown under: as reported, else read off its
/// identifier.
pub open spec fn shown_name(recent: Seq<RecentApp>, app: Seq<char>) -> Seq<char> {
    match reported_name(recent, app, 0) {
        Some(name) => name,
        None => friendly_name(app),
    }
}

/// The name that an application is shown under.
pub fn app_name(recent: &Vec<RecentApp>, app: &str) -> (name: String)
    ensures
        name@ == shown_name(recent@, app@),
{
    let mut i: usize = 0;
    while i < recent.len()
        invariant
            i <= recent@.len(),
            reported_name(recent@, app@, 0) == reported_name(recent@, app@, i as int),
        decreases recent@.len() - i,
    {
        if same_text(recent[i].app.as_str(), app) {
            return recent[i].name.clone();
        }
        i += 1;
    }
    friendly_app_name(app)
}

/// A profile that is saved, with how many buttons or groups of settings it
/// changes.
#[derive(Debug)]
pub struct SavedProfile {
    pub app: String,
    pub override_count: usize,
}

/// Whether `choices` are the saved profiles.
pub open spec fn lists_saved(
    choices: Seq<ProfileChoice>,
    saved: Seq<SavedProfile>,
    recent: Seq<RecentApp>,
) -> bool {
    &&& choices.len() == saved.len()
    &&& forall|i: int|
        #![trigger choices[i]]
        0 <= i < choices.len() ==> choices[i].app == saved[i].app && choices[i].name@
            == shown_name(recent, saved[i].app@) && choices[i].override_count
            == saved[i].override_count && choices[i].persisted
}

/// The saved profiles as choices.
pub fn saved_choices(saved: &Vec<SavedProfile>, recent: &Vec<RecentApp>) -> (choices: Vec<
    ProfileChoice,
>)
    ensures
        lists_saved(choices@, saved@, recent@),
{
    let mut choices: Vec<ProfileChoice> = Vec::new();
    let mut i: usize = 0;
    while i < saved.len()
        invariant
            i <= saved@.len(),
            choices@.len() == i,
            forall|j: int|
                #![trigger choices@[j]]
                0 <= j < i ==> choices@[j].app == saved@[j].app && choices@[j].name@ == shown_name(
                    recent@,
                    saved@[j].app@,
                ) && choices@[j].override_count == saved@[j].override_count
                    && choices@[j].persisted,
        decreases saved@.len() - i,
    {
        choices.push(
            ProfileChoice {
                app: saved[i].app.clone(),
                name: app_name(recent, saved[i].app.as_str()),
                override_count: saved[i].override_count,
                persisted: true,
            },
        );
        i += 1;
    }
    choices
}

/// Whether `open` are the saved profiles and the open one, which is put last
/// while it is not saved.
pub open spec fn with_open(
    open: Seq<ProfileChoice>,
    saved: Seq<ProfileChoice>,
    editing_app: Option<Seq<char>>,
    recent: Seq<RecentApp>,
) -> bool {
    match editing_app {
        Some(app) if !offered(saved, app) => {
            &&& open.len() == saved.len() + 1
            &&& open.drop_last() == saved
            &&& open.last().app@ == app
            &&& open.last().name@ == shown_name(recent, app)
            &&& open.last().override_count == 0
            &&& !open.last().persisted
        },
        _ => open == saved,
    }
}

/// Whether a saved one of `profiles` is for `app`.
pub open spec fn is_saved(profiles: Seq<ProfileChoice>, app: Seq<char>) -> bool {
    exists|i: int|
        0 <= i < profiles.len() && (#[trigger] profiles[i]).persisted && profiles[i].app@ == app
}

/// The choices for the first `upto` recent applications: without those that
/// have a profile or whose profile is open.
pub open spec fn recent_choices(
    recent: Seq<RecentApp>,
    profiles: Seq<ProfileChoice>,
    editing_app: Option<Seq<char>>,
    upto: int,
) -> Seq<ProfileChoice>
    decreases upto,
{
    if upto <= 0 {
        seq![]
    } else {
        let rest = recent_choices(recent, profiles, editing_app, upto - 1);
        let seen = recent[upto - 1];
        if is_saved(profiles, seen.app@) || editing_app == Some(seen.app@) {
            rest
        } else {
            rest.push(
                ProfileChoice {
                    app: seen.app,
                    name: seen.name,
                    override_count: 0,
                    persisted: false,
                },
            )
        }
    }
}

/// Whether an application is not offered from the catalog: it has a profile,
/// was seen in this session and so is offered among those, or its profile is
/// open.
pub open spec fn taken(
    app: Seq<char>,
    profiles: Seq<ProfileChoice>,
    recent: Seq<RecentApp>,
    editing_app: Option<Seq<char>>,
) -> bool {
    is_saved(profiles, app) || reported_name(recent, app, 0) is Some || editing_app == Some(app)
}

/// What the profile bar shows.
#[derive(Debug)]
pub struct ProfileScopeModel {
    pub profiles: Vec<ProfileChoice>,
    pub recent: Vec<ProfileChoice>,
    pub catalog: CatalogPresentation,
}

fn observed_apps(recent: &Vec<RecentApp>) -> (observed: Vec<String>)
    ensures
        observed@.len() == recent@.len(),
        forall|i: int| 0 <= i < observed@.len() ==> #[trigger] observed@[i] == recent@[i].app,
{
    let mut observed: Vec<String> = Vec::new();
    let mut i: usize = 0;
    while i < recent.len()
        invariant
            i <= recent@.len(),
            observed@.len() == i,
            forall|j: int| 0 <= j < i ==> #[trigger] observed@[j] == recent@[j].app,
        decreases recent@.len() - i,
    {
        observed.push(recent[i].app.clone());
        i += 1;
    }
    observed
}

proof fn observed_are_reported(observed: Seq<String>, recent: Seq<RecentApp>, app: Seq<char>, from: int)
    requires
        observed.len() == recent.len(),
        forall|i: int| 0 <= i < observed.len() ==> #[trigger] observed[i] == recent[i].app,
        0 <= from <= recent.len(),
        forall|i: int| 0 <= i < from ==> (#[trigger] recent[i]).app@ != app,
    ensures
        lists(observed, app) == (reported_name(recent, app, from) is Some),
    decreases recent.len() - from,
{
    if from == recent.len() {
        assert forall|i: int| 0 <= i < observed.len() implies (#[trigger] observed[i])@ != app by {
            assert(recent[i].app@ != app);
        }
    } else if recent[from].app@ == app {
        assert(observed[from]@ == app);
    } else {
        observed_are_reported(observed, recent, app, from + 1);
    }
}

/// The identifiers of the saved ones among `profiles`.
fn saved_apps(profiles: &Vec<ProfileChoice>) -> (saved: Vec<String>)
    ensures
        forall|app: Seq<char>| #[trigger] lists(saved@, app) == is_saved(profiles@, app),
{
    let mut saved: Vec<String> = Vec::new();
    let mut i: usize = 0;
    while i < profiles.len()
        invariant
            i <= profiles@.len(),
            forall|app: Seq<char>| #[trigger]
                lists(saved@, app) == is_saved(profiles@.take(i as int), app),
        decreases profiles@.len() - i,
    {
        let ghost before = saved@;
        if profiles[i].persisted {
            saved.push(profiles[i].app.clone());
        }
        proof {
            let shorter = profiles@.take(i as int);
            let longer = profiles@.take(i + 1);
            assert forall|app: Seq<char>| #[trigger] lists(saved@, app) == is_saved(
                longer,
                app,
            ) by {
                assert(lists(before, app) == is_saved(shorter, app));
                if lists(saved@, app) {
                    let k = choose|k: int| 0 <= k < saved@.len() && (#[trigger] saved@[k])@ == app;
                    if k < before.len() {
                        assert(before[k]@ == app);
                        let m = choose|m: int|
                            0 <= m < shorter.len() && (#[trigger] shorter[m]).persisted
                                && shorter[m].app@ == app;
                        assert(longer[m] == shorter[m]);
                    } else {
                        assert(longer[i as int] == profiles@[i as int]);
                    }
                }
                if is_saved(longer, app) {
                    let m = choose|m: int|
                        0 <= m < longer.len() && (#[trigger] longer[m]).persisted
                            && longer[m].app@ == app;
                    if m < i {
                        assert(shorter[m] == longer[m]);
                        let k = choose|k: int|
                            0 <= k < before.len() && (#[trigger] before[k])@ == app;
                        assert(saved@[k] == before[k]);
                    } else {
                        assert(saved@[saved@.len() - 1]@ == app);
                    }
                }
            }
        }
        i += 1;
    }
    assert(profiles@.take(profiles@.len() as int) =~= profiles@);
    saved
}

fn append(list: &mut Vec<String>, more: &Vec<String>)
    ensures
        forall|app: Seq<char>| #[trigger]
            lists(final(list)@, app) == (lists(old(list)@, app) || lists(more@, app)),
{
    let mut i: usize = 0;
    let ghost start = list@;
    while i < more.len()
        invariant
            i <= more@.len(),
            start == old(list)@,
            list@ == start + more@.take(i as int),
        decreases more@.len() - i,
    {
        list.push(more[i].clone());
        assert(list@ =~= start + more@.take(i + 1));
        i += 1;
    }
    assert(more@.take(more@.len() as int) =~= more@);
    proof {
        assert forall|app: Seq<char>| #[trigger] lists(list@, app) == (lists(start, app) || lists(
            more@,
            app,
        )) by {
            if lists(start, app) {
                let k = choose|k: int| 0 <= k < start.len() && (#[trigger] start[k])@ == app;
                assert(list@[k] == start[k]);
            }
            if lists(more@, app) {
                let k = choose|k: int| 0 <= k < more@.len() && (#[trigger] more@[k])@ == app;
                assert(list@[start.len() + k] == more@[k]);
            }
            if lists(list@, app) {
                let k = choose|k: int| 0 <= k < list@.len() && (#[trigger] list@[k])@ == app;
                if k < start.len() {
                    assert(start[k]@ == app);
                } else {
                    assert(more@[k - start.len()]@ == app);
                }
            }
        }
    }
}

/// Whether the catalog offers what is not taken.
pub open spec fn offers_rest(
    shown: CatalogPresentation,
    load: CatalogLoad,
    preferred: IdentityKind,
    profiles: Seq<ProfileChoice>,
    recent: Seq<RecentApp>,
    editing_app: Option<Seq<char>>,
) -> bool {
    exists|observed: Seq<String>, unavailable: Seq<String>|
        #![trigger presents(shown, load, observed, unavailable, preferred)]
        (forall|app: Seq<char>| #[trigger]
            lists(observed, app) == (reported_name(recent, app, 0) is Some)) && (forall|
            app: Seq<char>,
        | #[trigger]
            lists(unavailable, app) == taken(app, profiles, recent, editing_app)) && presents(
            shown,
            load,
            observed,
            unavailable,
            preferred,
        )
}

/// What the profile bar shows: the saved profiles and the open one by name, and
/// the applications that a profile can be added for.
pub fn profile_scope_model(
    editing_app: Option<&str>,
    saved: &Vec<ProfileChoice>,
    recent: &Vec<RecentApp>,
    load: &CatalogLoad,
    preferred: IdentityKind,
) -> (model: ProfileScopeModel)
    ensures
        exists|open: Seq<ProfileChoice>| #[trigger]
            with_open(open, saved@, optional_view(editing_app), recent@) && sorted_on(
                model.profiles@,
                open,
                lower_names(open),
            ),
        model.recent@ == recent_choices(
            recent@,
            model.profiles@,
            optional_view(editing_app),
            recent@.len() as int,
        ),
        offers_rest(
            model.catalog,
            *load,
            preferred,
            model.profiles@,
            recent@,
            optional_view(editing_app),
        ),
{
    let mut open: Vec<ProfileChoice> = copy_choices(saved);
    if let Some(app) = editing_app {
        if !is_offered(saved, app) {
            open.push(
                ProfileChoice {
                    app: app.to_owned(),
                    name: app_name(recent, app),
                    override_count: 0,
                    persisted: false,
                },
            );
            assert(open@.drop_last() =~= saved@);
        }
    }
    assert(with_open(open@, saved@, optional_view(editing_app), recent@));
    let profiles = sort_by_name(&open);
    let persisted = saved_apps(&profiles);
    let mut available: Vec<ProfileChoice> = Vec::new();
    let mut i: usize = 0;
    while i < recent.len()
        invariant
            i <= recent@.len(),
            forall|app: Seq<char>| #[trigger]
                lists(persisted@, app) == is_saved(profiles@, app),
            available@ == recent_choices(
                recent@,
                profiles@,
                optional_view(editing_app),
                i as int,
            ),
        decreases recent@.len() - i,
    {
        let is_open = match editing_app {
            Some(app) => same_text(recent[i].app.as_str(), app),
            None => false,
        };
        assert(lists(persisted@, recent@[i as int].app@) == is_saved(
            profiles@,
            recent@[i as int].app@,
        ));
        if !list_contains(&persisted, recent[i].app.as_str()) && !is_open {
            available.push(
                ProfileChoice {
                    app: recent[i].app.clone(),
                    name: recent[i].name.clone(),
                    override_count: 0,
                    persisted: false,
                },
            );
        }
        i += 1;
    }
    let observed = observed_apps(recent);
    let mut unavailable = persisted;
    append(&mut unavailable, &observed);
    let mut opened: Vec<String> = Vec::new();
    if let Some(app) = editing_app {
        opened.push(app.to_owned());
        assert(opened@[0]@ == app@);
    }
    append(&mut unavailable, &opened);
    proof {
        assert forall|app: Seq<char>| #[trigger] lists(observed@, app) == (reported_name(
            recent@,
            app,
            0,
        ) is Some) by {
            observed_are_reported(observed@, recent@, app, 0);
        }
        assert forall|app: Seq<char>| #[trigger] lists(unavailable@, app) == taken(
            app,
            profiles@,
            recent@,
            optional_view(editing_app),
        ) by {
            observed_are_reported(observed@, recent@, app, 0);
            if lists(opened@, app) {
                let k = choose|k: int| 0 <= k < opened@.len() && (#[trigger] opened@[k])@ == app;
            }
            if optional_view(editing_app) == Some(app) {
                assert(opened@[0]@ == app);
            }
        }
    }
    let catalog = available_profiles(load, &observed, &unavailable, preferred);
    assert(presents(catalog, *load, observed@, unavailable@, preferred));
    ProfileScopeModel { profiles, recent: available, catalog }
}

fn copy_choices(choices: &Vec<ProfileChoice>) -> (copy: Vec<ProfileChoice>)
    ensures
        copy@ == choices@,
{
    let mut copy: Vec<ProfileChoice> = Vec::new();
    let mut i: usize = 0;
    while i < choices.len()
        invariant
            i <= choices@.len(),
            copy@ =~= choices@.take(i as int),
        decreases choices@.len() - i,
    {
        copy.push(choices[i].clone());
        i += 1;
    }
    copy
}

/// Which editor a profile bar belongs to.
#[derive(Debug, Clone, Copy, PartialEq, Eq, Structural)]
pub enum ProfileEditor {
    Buttons,
    Device,
}

/// What is said of the open profile.
pub open spec fn summary(editor: ProfileEditor, app: bool, override_count: usize) -> Seq<char> {
    match editor {
        ProfileEditor::Buttons => if !app {
            "Default bindings apply unless an app profile overrides them."@
        } else if override_count == 0 {
            "No overrides yet. Select a button to customize for %{app}."@
        } else if override_count == 1 {
            "%{app} overrides 1 button. Others inherit Default."@
        } else {
            "%{app} overrides %{count} buttons. Others inherit Default."@
        },
        ProfileEditor::Device => if !app {
            "Default settings apply unless an application profile overrides them."@
        } else if override_count == 0 {
            "No overrides yet. Changes here customize %{app}."@
        } else if override_count == 1 {
            "%{app} overrides 1 setting group. Others inherit Default."@
        } else {
            "%{app} overrides %{count} setting groups. Others inherit Default."@
        },
    }
}

/// What is said of the open profile.
pub fn profile_summary(editor: ProfileEditor, editing_app: Option<&str>, override_count: usize) -> (
    message: &'static str)
    ensures
        message@ == summary(editor, editing_app is Some, override_count),
{
    let app = editing_app.is_some();
    match editor {
        ProfileEditor::Buttons => if !app {
            "Default bindings apply unless an app profile overrides them."
        } else if override_count == 0 {
            "No overrides yet. Select a button to customize for %{app}."
        } else if override_count == 1 {
            "%{app} overrides 1 button. Others inherit Default."
        } else {
            "%{app} overrides %{count} buttons. Others inherit Default."
        },
        ProfileEditor::Device => if !app {
            "Default settings apply unless an application profile overrides them."
        } else if override_count == 0 {
            "No overrides yet. Changes here customize %{app}."
        } else if override_count == 1 {
            "%{app} overrides 1 setting group. Others inherit Default."
        } else {
            "%{app} overrides %{count} setting groups. Others inherit Default."
        },
    }
}

/// The line under the profile bar: what is said of the open profile, the
/// application's name in it, and the profile in force, which is the default one
/// where it has no name.
#[derive(Debug)]
pub struct CanvasStatus {
    pub summary: &'static str,
    pub app: Option<String>,
    pub count: usize,
    pub active: Option<String>,
}

/// The line under the profile bar. A device that is not remembered has no
/// profiles, and no line.
pub fn profile_canvas_status(
    editor: ProfileEditor,
    state: Option<&AppState>,
    recent: &Vec<RecentApp>,
    override_count: usize,
    active: Option<String>,
) -> (status: Option<CanvasStatus>)
    ensures
        match status {
            Some(status) => {
                &&& state matches Some(state)
                &&& state.current_settings_key() is Some
                &&& status.summary@ == summary(editor, state.scope() is Some, override_count)
                &&& crate::text::owned_view(status.app) == match state.scope() {
                    Some(app) => Some(shown_name(recent@, app)),
                    None => None,
                }
                &&& status.count == override_count
                &&& status.active == active
            },
            None => match state {
                Some(state) => state.current_settings_key() is None,
                None => true,
            },
        },
{
    let state = match state {
        Some(state) => state,
        None => {
            return None;
        },
    };
    let persistent = match state.current_record() {
        Some(record) => record.persistent,
        None => false,
    };
    if !persistent {
        return None;
    }
    let editing_app = state.editing_app();
    Some(
        CanvasStatus {
            summary: profile_summary(editor, editing_app, override_count),
            app: match editing_app {
                Some(app) => Some(app_name(recent, app)),
                None => None,
            },
            count: override_count,
            active,
        },
    )
}

/// What is asked before a profile is removed.
pub fn remove_profile_question(profile: &ProfileChoice) -> (message: &'static str)
    ensures
        message@ == if profile.override_count == 1 {
            "Remove %{app} profile and its 1 override?"@
        } else {
            "Remove %{app} profile and its %{count} overrides?"@
        },
{
    if profile.override_count == 1 {
        "Remove %{app} profile and its 1 override?"
    } else {
        "Remove %{app} profile and its %{count} overrides?"
    }
}

/// A tab of the profile bar.
#[derive(Debug, Clone, Copy, PartialEq, Eq, Structural)]
pub struct ProfileTab {
    pub selected: bool,
    /// Whether it offers to remove the profile: only a saved one can be.
    pub removable: bool,
}

/// The tab of a profile.
pub fn profile_tab(profile: &ProfileChoice, editing_app: Option<&str>) -> (tab: ProfileTab)
    ensures
        tab.selected == (optional_view(editing_app) == Some(profile.app@)),
        tab.removable == profile.persisted,
{
    let selected = match editing_app {
        Some(app) => same_text(profile.app.as_str(), app),
        None => false,
    };
    ProfileTab { selected, removable: profile.persisted }
}

/// The tab of the default profile, which is always there.
pub fn default_tab(editing_app: Option<&str>) -> (tab: ProfileTab)
    ensures
        tab == (ProfileTab { selected: editing_app is None, removable: false }),
{
    ProfileTab { selected: editing_app.is_none(), removable: false }
}

/// Whether `tab` is the tab of a profile.
pub open spec fn is_tab_of(tab: ProfileTab, profile: ProfileChoice, editing_app: Option<Seq<char>>) -> bool {
    tab.selected == (editing_app == Some(profile.app@)) && tab.removable == profile.persisted
}

/// Whether `tabs` are those of the profile bar: that of the default profile,
/// then one for each profile in their order.
pub open spec fn shows_tabs(
    tabs: Seq<ProfileTab>,
    profiles: Seq<ProfileChoice>,
    editing_app: Option<Seq<char>>,
) -> bool {
    &&& tabs.len() == profiles.len() + 1
    &&& tabs[0] == (ProfileTab { selected: editing_app is None, removable: false })
    &&& forall|k: int|
        1 <= k < tabs.len() ==> is_tab_of(#[trigger] tabs[k], profiles[k - 1], editing_app)
}

/// The tabs of the profile bar: that of the default profile, then one for each
/// profile in their order.
pub fn profile_scope_content(model: &ProfileScopeModel, editing_app: Option<&str>) -> (tabs: Vec<
    ProfileTab,
>)
    ensures
        shows_tabs(tabs@, model.profiles@, optional_view(editing_app)),
{
    let mut tabs: Vec<ProfileTab> = Vec::new();
    tabs.push(default_tab(editing_app));
    let mut i: usize = 0;
    while i < model.profiles.len()
        invariant
            i <= model.profiles@.len(),
            tabs@.len() == i + 1,
            tabs@[0] == (ProfileTab { selected: editing_app is None, removable: false }),
            forall|k: int|
                1 <= k <= i ==> is_tab_of(
                    #[trigger] tabs@[k],
                    model.profiles@[k - 1],
                    optional_view(editing_app),
                ),
        decreases model.profiles@.len() - i,
    {
        tabs.push(profile_tab(&model.profiles[i], editing_app));
        i += 1;
    }
    tabs
}

/// The settings that a profile is removed from: those of the selected device. A
/// device that is not remembered has no profiles.
pub fn removal_key(state: Option<&AppState>) -> (key: Option<String>)
    ensures
        crate::text::owned_view(key) == match state {
            Some(state) => state.current_settings_key(),
            None => None,
        },
{
    match state {
        Some(state) => state.current_persistent_key(),
        None => None,
    }
}

/// Whether `profiles` are the saved profiles and the open one, by name without
/// regard to case.
pub open spec fn lists_profiles(
    profiles: Seq<ProfileChoice>,
    saved: Seq<SavedProfile>,
    recent: Seq<RecentApp>,
    editing_app: Option<Seq<char>>,
) -> bool {
    exists|choices: Seq<ProfileChoice>, open: Seq<ProfileChoice>|
        #![trigger with_open(open, choices, editing_app, recent)]
        lists_saved(choices, saved, recent) && with_open(open, choices, editing_app, recent)
            && sorted_on(profiles, open, lower_names(open))
}

/// The profile bar of the selected device, which has to be one that is
/// remembered.
pub fn device_profile_scope_bar(
    state: Option<&AppState>,
    saved: &Vec<SavedProfile>,
    recent: &Vec<RecentApp>,
    load: &CatalogLoad,
    preferred: IdentityKind,
) -> (bar: Option<(ProfileScopeModel, Vec<ProfileTab>)>)
    ensures
        bar is Some == (state matches Some(state) && state.current_settings_key() is Some),
        bar matches Some((model, tabs)) ==> {
            let editing_app = state->0.scope();
            &&& lists_profiles(model.profiles@, saved@, recent@, editing_app)
            &&& model.recent@ == recent_choices(
                recent@,
                model.profiles@,
                editing_app,
                recent@.len() as int,
            )
            &&& offers_rest(model.catalog, *load, preferred, model.profiles@, recent@, editing_app)
            &&& shows_tabs(tabs@, model.profiles@, editing_app)
        },
{
    let state = match state {
        Some(state) => state,
        None => {
            return None;
        },
    };
    let persistent = match state.current_record() {
        Some(record) => record.persistent,
        None => false,
    };
    if !persistent {
        return None;
    }
    let editing_app = state.editing_app();
    let choices = saved_choices(saved, recent);
    let model = profile_scope_model(editing_app, &choices, recent, load, preferred);
    let tabs = profile_scope_content(&model, editing_app);
    Some((model, tabs))
}

/// The open profile is always among the tabs.
pub proof fn the_open_profile_has_a_tab(
    open: Seq<ProfileChoice>,
    saved: Seq<ProfileChoice>,
    app: Seq<char>,
    recent: Seq<RecentApp>,
)
    requires
        with_open(open, saved, Some(app), recent),
    ensures
        offered(open, app),
{
    if !offered(saved, app) {
        assert(open[open.len() - 1].app@ == app);
    }
}

} // verus!
