//! Application profiles: names, identities, the catalog and the picker.

use openlogi_desktop::features::profiles::catalog::{
    arrange, available_profiles, identity_for_application, is_offered, preferred_identity_kind,
    preferred_in_session, sort_by_name, Application, ApplicationIdentity, CatalogLoad,
    CatalogPresentation, IdentityKind, Platform, ProfileChoice,
};
use openlogi_desktop::features::profiles::model::{
    app_name, default_tab, profile_canvas_status, profile_scope_model, profile_summary,
    profile_tab, remove_profile_question, saved_choices, ProfileEditor, RecentApp, SavedProfile,
};
use openlogi_desktop::features::profiles::names::{friendly_app_name, is_white, monogram, trim};
use openlogi_desktop::features::profiles::picker::{
    add_app_content, application_list_height, matches_lowered, profile_matches_query, search_query,
    AppIconState, CatalogNotice, ProfileIconCache, APP_ROW_H,
};

fn application_with_identities(identities: Vec<(IdentityKind, &str)>) -> Application {
    Application {
        name: "Editor".into(),
        identities: identities
            .into_iter()
            .map(|(kind, value)| ApplicationIdentity { kind, value: value.into() })
            .collect(),
    }
}

fn choice(app: &str, name: &str) -> ProfileChoice {
    ProfileChoice { app: app.into(), name: name.into(), override_count: 0, persisted: false }
}

#[test]
fn profile_scope_profile_identifiers_have_a_readable_fallback() {
    assert_eq!(friendly_app_name("com.google.Chrome"), "Chrome");
    assert_eq!(friendly_app_name("exe:C:\\Tools\\Zed.exe"), "Zed");
}

#[test]
fn profiles_profile_identifiers_have_a_readable_fallback() {
    assert_eq!(friendly_app_name("com.google.Chrome"), "Chrome");
    assert_eq!(friendly_app_name("exe:C:\\Tools\\Zed.exe"), "Zed");
}

#[test]
fn observed_identity_wins_over_the_platform_default() {
    let application = application_with_identities(vec![
        (IdentityKind::LinuxWaylandAppId, "org.example.Editor"),
        (IdentityKind::LinuxStartupWmClass, "Editor"),
    ]);
    let observed = vec!["Editor".to_string()];
    assert_eq!(
        identity_for_application(&application, &observed, IdentityKind::LinuxWaylandAppId)
            .as_deref(),
        Some("Editor")
    );
}

#[test]
fn unobserved_application_uses_the_active_identity_namespace() {
    let application = application_with_identities(vec![
        (IdentityKind::LinuxWaylandAppId, "org.example.Editor"),
        (IdentityKind::LinuxStartupWmClass, "Editor"),
    ]);
    assert_eq!(
        identity_for_application(&application, &Vec::new(), IdentityKind::LinuxWaylandAppId)
            .as_deref(),
        Some("org.example.Editor")
    );
}

#[test]
fn linux_desktop_id_keeps_apps_without_startup_class_available() {
    let application =
        application_with_identities(vec![(IdentityKind::LinuxDesktopId, "org.example.Editor")]);
    assert_eq!(
        identity_for_application(&application, &Vec::new(), IdentityKind::LinuxStartupWmClass)
            .as_deref(),
        Some("org.example.Editor")
    );
}

#[test]
fn an_identifier_without_parts_is_its_own_name() {
    assert_eq!(friendly_app_name("zed"), "zed");
    assert_eq!(friendly_app_name("exe:/usr/bin/kate/"), "kate");
    assert_eq!(friendly_app_name("org.a.."), "a");
}

#[test]
fn a_monogram_is_the_first_visible_character() {
    assert_eq!(monogram(" \tzed"), 'z');
    assert_eq!(monogram("  "), '?');
    assert_eq!(trim("  zed \t"), "zed");
    assert!(is_white(' ') && !is_white('z'));
}

#[test]
fn the_session_decides_what_an_application_is_known_by() {
    assert_eq!(
        preferred_identity_kind(Platform::MacOs, None, "", false),
        IdentityKind::MacBundleIdentifier
    );
    assert_eq!(
        preferred_identity_kind(Platform::Windows, None, "", false),
        IdentityKind::WindowsExecutablePath
    );
    assert_eq!(
        preferred_in_session(Platform::Linux, Some(IdentityKind::LinuxDesktopId), true, false),
        preferred_in_session(Platform::Linux, Some(IdentityKind::LinuxDesktopId), false, true)
    );
    assert_eq!(
        preferred_identity_kind(Platform::Linux, None, "GNOME", false),
        preferred_in_session(Platform::Linux, None, false, true)
    );
}

#[test]
fn choices_are_sorted_by_name_without_regard_to_case() {
    let sorted = sort_by_name(&vec![choice("b", "beta"), choice("A", "Alpha"), choice("c", "Beta")]);
    let apps: Vec<&str> = sorted.iter().map(|choice| choice.app.as_str()).collect();
    assert_eq!(apps, ["A", "b", "c"]);
    let arranged = arrange(
        &vec![choice("x", "x"), choice("y", "y")],
        &vec!["2".to_string(), "1".to_string()],
    );
    assert_eq!(arranged[0].app, "y");
}

#[test]
fn an_application_is_offered_once() {
    let load = CatalogLoad::Ready(vec![
        application_with_identities(vec![(IdentityKind::LinuxDesktopId, "editor")]),
        application_with_identities(vec![(IdentityKind::LinuxDesktopId, "editor")]),
        application_with_identities(vec![(IdentityKind::LinuxDesktopId, "taken")]),
    ]);
    match available_profiles(
        &load,
        &Vec::new(),
        &vec!["taken".to_string()],
        IdentityKind::LinuxDesktopId,
    ) {
        CatalogPresentation::Ready(choices) => {
            assert_eq!(choices.len(), 1);
            assert!(is_offered(&choices, "editor"));
            assert!(!is_offered(&choices, "taken"));
        }
        other => panic!("unexpected {other:?}"),
    }
    assert!(matches!(
        available_profiles(&CatalogLoad::Failed, &Vec::new(), &Vec::new(), IdentityKind::LinuxDesktopId),
        CatalogPresentation::Failed
    ));
    assert!(matches!(
        available_profiles(&CatalogLoad::Loading, &Vec::new(), &Vec::new(), IdentityKind::LinuxDesktopId),
        CatalogPresentation::Loading
    ));
}

#[test]
fn a_profile_is_named_as_its_application_was_seen() {
    let recent = vec![RecentApp { app: "com.google.Chrome".into(), name: "Google Chrome".into() }];
    assert_eq!(app_name(&recent, "com.google.Chrome"), "Google Chrome");
    assert_eq!(app_name(&recent, "com.apple.Safari"), "Safari");
    let saved =
        saved_choices(&vec![SavedProfile { app: "com.apple.Safari".into(), override_count: 2 }], &recent);
    assert_eq!(saved[0].name, "Safari");
    assert_eq!(saved[0].override_count, 2);
    assert!(saved[0].persisted);
}

#[test]
fn the_open_profile_is_among_the_tabs() {
    let model = profile_scope_model(
        Some("com.apple.Safari"),
        &Vec::new(),
        &Vec::new(),
        &CatalogLoad::Loading,
        IdentityKind::MacBundleIdentifier,
    );
    assert!(is_offered(&model.profiles, "com.apple.Safari"));
    let open = &model.profiles[0];
    assert!(profile_tab(open, Some("com.apple.Safari")).selected);
    assert!(!profile_tab(open, None).selected);
    assert!(default_tab(None).selected && !default_tab(None).removable);
    assert!(!default_tab(Some("com.apple.Safari")).selected);
}

#[test]
fn summaries_count_overrides() {
    assert_eq!(
        profile_summary(ProfileEditor::Buttons, Some("Safari"), 1),
        "%{app} overrides 1 button. Others inherit Default."
    );
    assert_eq!(
        profile_summary(ProfileEditor::Device, Some("Safari"), 3),
        "%{app} overrides %{count} setting groups. Others inherit Default."
    );
    assert_eq!(
        profile_summary(ProfileEditor::Device, None, 3),
        "Default settings apply unless an application profile overrides them."
    );
    assert!(profile_canvas_status(ProfileEditor::Device, None, &Vec::new(), 0, None).is_none());
    let mut profile = choice("a", "a");
    profile.override_count = 1;
    assert_eq!(remove_profile_question(&profile), "Remove %{app} profile and its 1 override?");
    profile.override_count = 2;
    assert_eq!(
        remove_profile_question(&profile),
        "Remove %{app} profile and its %{count} overrides?"
    );
}

#[test]
fn searching_ignores_case_in_any_script() {
    assert_eq!(search_query("  \u{c9}DITEUR "), "\u{e9}diteur");
    assert!(profile_matches_query(&choice("org.app", "\u{c9}diteur"), "\u{e9}dit"));
    assert!(profile_matches_query(&choice("org.APP", "x"), "app"));
    assert!(!profile_matches_query(&choice("org.app", "x"), "y"));
    assert!(profile_matches_query(&choice("org.app", "x"), ""));
    assert!(matches_lowered("abc", "def", "bc"));
}

#[test]
fn the_picker_says_why_a_list_is_empty() {
    let recent = vec![choice("a", "Alpha"), choice("b", "Beta")];
    let ready = CatalogPresentation::Ready(vec![choice("c", "Gamma")]);
    let all = add_app_content(&recent, &ready, false, "");
    assert_eq!(all.recent.len(), 2);
    assert!(!all.show_applications);
    let found = add_app_content(&recent, &ready, false, "gam");
    assert!(found.recent.is_empty() && found.show_applications);
    assert_eq!(found.applications.len(), 1);
    let nothing = add_app_content(&recent, &ready, true, "zzz");
    assert_eq!(nothing.notice, Some(CatalogNotice::NothingFound));
    let loading = add_app_content(&recent, &CatalogPresentation::Loading, true, "");
    assert_eq!(loading.notice, Some(CatalogNotice::Loading));
    let failed = add_app_content(&recent, &CatalogPresentation::Failed, true, "");
    assert_eq!(failed.notice, Some(CatalogNotice::Unavailable));
    assert_eq!(application_list_height(3), 3 * APP_ROW_H);
    assert_eq!(application_list_height(60), 6 * APP_ROW_H);
}

#[test]
fn an_icon_is_looked_up_once() {
    let mut icons = ProfileIconCache::new();
    assert!(icons.ensure_icon("a"));
    assert!(!icons.ensure_icon("a"));
    assert_eq!(icons.state("a"), AppIconState::Loading);
    icons.resolved("a", false);
    assert_eq!(icons.state("a"), AppIconState::Missing);
    assert!(!icons.ensure_icon("a"));
    icons.resolved("b", true);
    assert_eq!(icons.state("b"), AppIconState::Ready);
}
