//! The installed applications that a profile can be added for.

use crate::order::{sorted_positions, stable_order, texts};
use crate::table::{list_contains, lists};
use crate::text::{contains, lowercase, same_text, text_le, to_lowercase, within};
use vstd::prelude::*;

verus! {

/// What kind of name identifies an application.
#[derive(Debug, Clone, Copy, PartialEq, Eq, Structural)]
pub enum IdentityKind {
    MacBundleIdentifier,
    WindowsExecutablePath,
    LinuxStartupWmClass,
    LinuxWaylandAppId,
    LinuxDesktopId,
}

/// A name that identifies an application.
#[derive(Debug)]
pub struct ApplicationIdentity {
    pub kind: IdentityKind,
    pub value: String,
}

/// An installed application.
#[derive(Debug)]
pub struct Application {
    pub name: String,
    pub identities: Vec<ApplicationIdentity>,
}

/// A profile that can be opened.
#[derive(Debug, PartialEq, Eq)]
pub struct ProfileChoice {
    pub app: String,
    pub name: String,
    pub override_count: usize,
    /// Whether the profile is saved, not just open.
    pub persisted: bool,
}

impl Clone for ProfileChoice {
    fn clone(&self) -> (copy: Self)
        ensures
            copy == *self,
    {
        ProfileChoice {
            app: self.app.clone(),
            name: self.name.clone(),
            override_count: self.override_count,
            persisted: self.persisted,
        }
    }
}

/// The system that the window runs on.
#[derive(Debug, Clone, Copy, PartialEq, Eq, Structural)]
pub enum Platform {
    MacOs,
    Windows,
    Linux,
}

/// The kind of name that the system reports running applications by. On Linux
/// it is what the foreground application was reported by, if that is one of the
/// two kinds that windows have; else it goes by the session: `x11` says whether
/// it is one of X11, and `desktop` is its name.
pub open spec fn preferred_kind(
    platform: Platform,
    runtime: Option<IdentityKind>,
    desktop: Seq<char>,
    x11: bool,
) -> IdentityKind {
    match platform {
        Platform::MacOs => IdentityKind::MacBundleIdentifier,
        Platform::Windows => IdentityKind::WindowsExecutablePath,
        Platform::Linux => match runtime {
            Some(IdentityKind::LinuxStartupWmClass) => IdentityKind::LinuxStartupWmClass,
            Some(IdentityKind::LinuxWaylandAppId) => IdentityKind::LinuxWaylandAppId,
            _ => if x11 || within(lowercase(desktop), "gnome"@) {
                IdentityKind::LinuxStartupWmClass
            } else {
                IdentityKind::LinuxWaylandAppId
            },
        },
    }
}

/// The kind of name that the system reports running applications by.
pub fn preferred_identity_kind(
    platform: Platform,
    runtime: Option<IdentityKind>,
    desktop: &str,
    x11: bool,
) -> (kind: IdentityKind)
    ensures
        kind == preferred_kind(platform, runtime, desktop@, x11),
{
    let gnome = contains(to_lowercase(desktop).as_str(), "gnome");
    preferred_in_session(platform, runtime, x11, gnome)
}

/// The kind of name that the system reports running applications by, where it
/// is known whether the desktop is GNOME.
pub fn preferred_in_session(
    platform: Platform,
    runtime: Option<IdentityKind>,
    x11: bool,
    gnome: bool,
) -> (kind: IdentityKind)
    ensures
        kind == match (platform, runtime) {
            (Platform::MacOs, _) => IdentityKind::MacBundleIdentifier,
            (Platform::Windows, _) => IdentityKind::WindowsExecutablePath,
            (Platform::Linux, Some(IdentityKind::LinuxStartupWmClass)) => {
                IdentityKind::LinuxStartupWmClass
            },
            (Platform::Linux, Some(IdentityKind::LinuxWaylandAppId)) => {
                IdentityKind::LinuxWaylandAppId
            },
            (Platform::Linux, _) => if x11 || gnome {
                IdentityKind::LinuxStartupWmClass
            } else {
                IdentityKind::LinuxWaylandAppId
            },
        },
{
    match platform {
        Platform::MacOs => IdentityKind::MacBundleIdentifier,
        Platform::Windows => IdentityKind::WindowsExecutablePath,
        Platform::Linux => match runtime {
            Some(IdentityKind::LinuxStartupWmClass) => IdentityKind::LinuxStartupWmClass,
            Some(IdentityKind::LinuxWaylandAppId) => IdentityKind::LinuxWaylandAppId,
            _ => if x11 || gnome {
                IdentityKind::LinuxStartupWmClass
            } else {
                IdentityKind::LinuxWaylandAppId
            },
        },
    }
}

/// Where the first identity is that was observed, from position `from` on.
pub open spec fn observed_at(
    identities: Seq<ApplicationIdentity>,
    observed: Seq<String>,
    from: int,
) -> Option<int>
    decreases identities.len() - from,
{
    if from < 0 || from >= identities.len() {
        None
    } else if lists(observed, identities[from].value@) {
        Some(from)
    } else {
        observed_at(identities, observed, from + 1)
    }
}

/// Where the first identity of a kind is, from position `from` on.
pub open spec fn kind_at(
    identities: Seq<ApplicationIdentity>,
    kind: IdentityKind,
    from: int,
) -> Option<int>
    decreases identities.len() - from,
{
    if from < 0 || from >= identities.len() {
        None
    } else if identities[from].kind == kind {
        Some(from)
    } else {
        kind_at(identities, kind, from + 1)
    }
}

/// Which identity an application's profile goes by: one under which it was
/// observed; else one of the preferred kind; else, where windows go by their
/// class, which a desktop file need not tell, its desktop id.
pub open spec fn identity_at(
    application: Application,
    observed: Seq<String>,
    preferred: IdentityKind,
) -> Option<int> {
    match observed_at(application.identities@, observed, 0) {
        Some(at) => Some(at),
        None => match kind_at(application.identities@, preferred, 0) {
            Some(at) => Some(at),
            None => if preferred == IdentityKind::LinuxStartupWmClass {
                kind_at(application.identities@, IdentityKind::LinuxDesktopId, 0)
            } else {
                None
            },
        },
    }
}

fn find_observed(identities: &Vec<ApplicationIdentity>, observed: &Vec<String>) -> (found: Option<
    usize,
>)
    ensures
        match found {
            Some(at) => observed_at(identities@, observed@, 0) == Some(at as int) && at
                < identities@.len(),
            None => observed_at(identities@, observed@, 0) is None,
        },
{
    let mut i: usize = 0;
    while i < identities.len()
        invariant
            i <= identities@.len(),
            observed_at(identities@, observed@, 0) == observed_at(
                identities@,
                observed@,
                i as int,
            ),
        decreases identities@.len() - i,
    {
        if list_contains(observed, identities[i].value.as_str()) {
            return Some(i);
        }
        i += 1;
    }
    None
}

fn find_kind(identities: &Vec<ApplicationIdentity>, kind: IdentityKind) -> (found: Option<usize>)
    ensures
        match found {
            Some(at) => kind_at(identities@, kind, 0) == Some(at as int) && at < identities@.len(),
            None => kind_at(identities@, kind, 0) is None,
        },
{
    let mut i: usize = 0;
    while i < identities.len()
        invariant
            i <= identities@.len(),
            kind_at(identities@, kind, 0) == kind_at(identities@, kind, i as int),
        decreases identities@.len() - i,
    {
        if identities[i].kind == kind {
            return Some(i);
        }
        i += 1;
    }
    None
}

/// The identity that an application's profile goes by.
pub fn identity_for_application(
    application: &Application,
    observed: &Vec<String>,
    preferred: IdentityKind,
) -> (identity: Option<String>)
    ensures
        match identity {
            Some(identity) => identity_at(*application, observed@, preferred) matches Some(at)
                && 0 <= at < application.identities@.len() && identity
                == application.identities@[at].value,
            None => identity_at(*application, observed@, preferred) is None,
        },
{
    let found = match find_observed(&application.identities, observed) {
        Some(at) => Some(at),
        None => match find_kind(&application.identities, preferred) {
            Some(at) => Some(at),
            None => if preferred == IdentityKind::LinuxStartupWmClass {
                find_kind(&application.identities, IdentityKind::LinuxDesktopId)
            } else {
                None
            },
        },
    };
    match found {
        Some(at) => Some(application.identities[at].value.clone()),
        None => None,
    }
}

/// Whether one of `choices` is for `app`.
pub open spec fn offered(choices: Seq<ProfileChoice>, app: Seq<char>) -> bool {
    exists|i: int| 0 <= i < choices.len() && (#[trigger] choices[i]).app@ == app
}

/// Whether one of `choices` is for `app`.
pub fn is_offered(choices: &Vec<ProfileChoice>, app: &str) -> (found: bool)
    ensures
        found == offered(choices@, app@),
{
    let mut i: usize = 0;
    while i < choices.len()
        invariant
            i <= choices@.len(),
            forall|j: int| 0 <= j < i ==> (#[trigger] choices@[j]).app@ != app@,
        decreases choices@.len() - i,
    {
        if same_text(choices[i].app.as_str(), app) {
            return true;
        }
        i += 1;
    }
    false
}

/// The choices for the first `upto` applications: those that have an identity,
/// are not taken, and do not share their identity with one before.
pub open spec fn candidates(
    applications: Seq<Application>,
    observed: Seq<String>,
    unavailable: Seq<String>,
    preferred: IdentityKind,
    upto: int,
) -> Seq<ProfileChoice>
    decreases upto,
{
    if upto <= 0 {
        seq![]
    } else {
        let rest = candidates(applications, observed, unavailable, preferred, upto - 1);
        let application = applications[upto - 1];
        match identity_at(application, observed, preferred) {
            None => rest,
            Some(at) => {
                let app = application.identities@[at].value;
                if lists(unavailable, app@) || offered(rest, app@) {
                    rest
                } else {
                    rest.push(
                        ProfileChoice {
                            app,
                            name: application.name,
                            override_count: 0,
                            persisted: false,
                        },
                    )
                }
            },
        }
    }
}

/// The names of `choices` in lower case.
pub open spec fn lower_names(choices: Seq<ProfileChoice>) -> Seq<Seq<char>> {
    choices.map_values(|choice: ProfileChoice| lowercase(choice.name@))
}

/// The identifiers of `choices`.
pub open spec fn apps(choices: Seq<ProfileChoice>) -> Seq<Seq<char>> {
    choices.map_values(|choice: ProfileChoice| choice.app@)
}

/// Whether `sorted` are `choices` in the order of `keys`, those with equal keys
/// in their own order.
pub open spec fn sorted_on(
    sorted: Seq<ProfileChoice>,
    choices: Seq<ProfileChoice>,
    keys: Seq<Seq<char>>,
) -> bool {
    exists|order: Seq<usize>| #[trigger] stable_order(keys, order) && arranged(sorted, choices, order)
}

/// Whether `sorted` are `choices` in this order.
pub open spec fn arranged(
    sorted: Seq<ProfileChoice>,
    choices: Seq<ProfileChoice>,
    order: Seq<usize>,
) -> bool {
    &&& sorted.len() == order.len()
    &&& forall|i: int| 0 <= i < sorted.len() ==> #[trigger] sorted[i] == choices[order[i] as int]
}

/// `choices` in the order of the keys that are given for them.
pub fn arrange(choices: &Vec<ProfileChoice>, keys: &Vec<String>) -> (sorted: Vec<ProfileChoice>)
    requires
        keys@.len() == choices@.len(),
    ensures
        sorted_on(sorted@, choices@, texts(keys@)),
{
    let order = sorted_positions(keys);
    let mut sorted: Vec<ProfileChoice> = Vec::new();
    let mut i: usize = 0;
    while i < order.len()
        invariant
            i <= order@.len(),
            keys@.len() == choices@.len(),
            stable_order(texts(keys@), order@),
            sorted@.len() == i,
            forall|j: int| 0 <= j < i ==> #[trigger] sorted@[j] == choices@[order@[j] as int],
        decreases order@.len() - i,
    {
        assert(order@[i as int] < texts(keys@).len());
        sorted.push(choices[order[i]].clone());
        i += 1;
    }
    assert(arranged(sorted@, choices@, order@));
    sorted
}

/// `choices` by their names in lower case.
pub fn sort_by_name(choices: &Vec<ProfileChoice>) -> (sorted: Vec<ProfileChoice>)
    ensures
        sorted_on(sorted@, choices@, lower_names(choices@)),
{
    let mut keys: Vec<String> = Vec::new();
    let mut i: usize = 0;
    while i < choices.len()
        invariant
            i <= choices@.len(),
            keys@.len() == i,
            forall|j: int|
                0 <= j < i ==> (#[trigger] keys@[j])@ == lowercase(choices@[j].name@),
        decreases choices@.len() - i,
    {
        keys.push(to_lowercase(choices[i].name.as_str()));
        i += 1;
    }
    assert(texts(keys@) =~= lower_names(choices@));
    arrange(choices, &keys)
}

fn sort_by_app(choices: &Vec<ProfileChoice>) -> (sorted: Vec<ProfileChoice>)
    ensures
        sorted_on(sorted@, choices@, apps(choices@)),
{
    let mut keys: Vec<String> = Vec::new();
    let mut i: usize = 0;
    while i < choices.len()
        invariant
            i <= choices@.len(),
            keys@.len() == i,
            forall|j: int| 0 <= j < i ==> (#[trigger] keys@[j])@ == choices@[j].app@,
        decreases choices@.len() - i,
    {
        keys.push(choices[i].app.clone());
        i += 1;
    }
    assert(texts(keys@) =~= apps(choices@));
    arrange(choices, &keys)
}

/// Whether `sorted` are `choices` by their names in lower case, and those with
/// equal names by their identifiers.
pub open spec fn sorted_fully(sorted: Seq<ProfileChoice>, choices: Seq<ProfileChoice>) -> bool {
    exists|between: Seq<ProfileChoice>| #[trigger]
        sorted_on(between, choices, apps(choices)) && sorted_on(
            sorted,
            between,
            lower_names(between),
        )
}

/// What is known of the installed applications.
#[derive(Debug)]
pub enum CatalogLoad {
    Loading,
    Ready(Vec<Application>),
    Failed,
}

/// The installed applications as they are offered.
#[derive(Debug)]
pub enum CatalogPresentation {
    Loading,
    Ready(Vec<ProfileChoice>),
    Failed,
}

/// Whether `shown` is what is offered of `load`.
pub open spec fn presents(
    shown: CatalogPresentation,
    load: CatalogLoad,
    observed: Seq<String>,
    unavailable: Seq<String>,
    preferred: IdentityKind,
) -> bool {
    match load {
        CatalogLoad::Loading => shown is Loading,
        CatalogLoad::Failed => shown is Failed,
        CatalogLoad::Ready(applications) => shown matches CatalogPresentation::Ready(choices)
            && sorted_fully(
            choices@,
            candidates(
                applications@,
                observed,
                unavailable,
                preferred,
                applications@.len() as int,
            ),
        ),
    }
}

/// The installed applications as they are offered: without those that are in
/// `unavailable`, by name.
pub fn available_profiles(
    load: &CatalogLoad,
    observed: &Vec<String>,
    unavailable: &Vec<String>,
    preferred: IdentityKind,
) -> (shown: CatalogPresentation)
    ensures
        presents(shown, *load, observed@, unavailable@, preferred),
{
    let applications = match load {
        CatalogLoad::Loading => {
            return CatalogPresentation::Loading;
        },
        CatalogLoad::Failed => {
            return CatalogPresentation::Failed;
        },
        CatalogLoad::Ready(applications) => applications,
    };
    let mut choices: Vec<ProfileChoice> = Vec::new();
    let mut i: usize = 0;
    while i < applications.len()
        invariant
            i <= applications@.len(),
            choices@ == candidates(
                applications@,
                observed@,
                unavailable@,
                preferred,
                i as int,
            ),
        decreases applications@.len() - i,
    {
        if let Some(app) = identity_for_application(&applications[i], observed, preferred) {
            if !list_contains(unavailable, app.as_str()) && !is_offered(&choices, app.as_str()) {
                choices.push(
                    ProfileChoice {
                        app,
                        name: applications[i].name.clone(),
                        override_count: 0,
                        persisted: false,
                    },
                );
            }
        }
        i += 1;
    }
    let between = sort_by_app(&choices);
    let sorted = sort_by_name(&between);
    assert(sorted_on(between@, choices@, apps(choices@)));
    CatalogPresentation::Ready(sorted)
}

/// Sorted choices stand by name, and by identifier where the names are equal
/// but for their case.
pub proof fn sorted_choices_stand_in_order(
    sorted: Seq<ProfileChoice>,
    choices: Seq<ProfileChoice>,
    i: int,
    j: int,
)
    requires
        sorted_fully(sorted, choices),
        0 <= i < j < sorted.len(),
    ensures
        text_le(lowercase(sorted[i].name@), lowercase(sorted[j].name@)),
        lowercase(sorted[i].name@) == lowercase(sorted[j].name@) ==> text_le(
            sorted[i].app@,
            sorted[j].app@,
        ),
{
    let between = choose|between: Seq<ProfileChoice>| #[trigger]
        sorted_on(between, choices, apps(choices)) && sorted_on(
            sorted,
            between,
            lower_names(between),
        );
    let order = choose|order: Seq<usize>| #[trigger]
        stable_order(lower_names(between), order) && arranged(sorted, between, order);
    let first = choose|order: Seq<usize>| #[trigger]
        stable_order(apps(choices), order) && arranged(between, choices, order);
    assert(order[i] < lower_names(between).len() && order[j] < lower_names(between).len());
    assert(sorted[i] == between[order[i] as int] && sorted[j] == between[order[j] as int]);
    if lowercase(sorted[i].name@) == lowercase(sorted[j].name@) {
        assert(order[i] < order[j]);
        let a = order[i] as int;
        let b = order[j] as int;
        assert(first[a] < apps(choices).len() && first[b] < apps(choices).len());
        assert(between[a] == choices[first[a] as int] && between[b] == choices[first[b] as int]);
    }
}

/// No application is offered twice, and none that is taken.
pub proof fn each_application_is_offered_once(
    applications: Seq<Application>,
    observed: Seq<String>,
    unavailable: Seq<String>,
    preferred: IdentityKind,
    upto: int,
    i: int,
    j: int,
)
    requires
        0 <= upto <= applications.len(),
        0 <= i < j < candidates(applications, observed, unavailable, preferred, upto).len(),
    ensures
        candidates(applications, observed, unavailable, preferred, upto)[i].app@ != candidates(
            applications,
            observed,
            unavailable,
            preferred,
            upto,
        )[j].app@,
        !lists(
            unavailable,
            candidates(applications, observed, unavailable, preferred, upto)[j].app@,
        ),
    decreases upto,
{
    let all = candidates(applications, observed, unavailable, preferred, upto);
    let rest = candidates(applications, observed, unavailable, preferred, upto - 1);
    if j < rest.len() {
        each_application_is_offered_once(
            applications,
            observed,
            unavailable,
            preferred,
            upto - 1,
            i,
            j,
        );
        assert(all[i] == rest[i] && all[j] == rest[j]);
    } else {
        assert(all[i] == rest[i]);
        assert(!offered(rest, all[j].app@));
    }
}

} // verus!
