//! The picker that adds a profile, and the icons of applications.

use crate::features::profiles::catalog::{CatalogPresentation, ProfileChoice};
use crate::features::profiles::names::{trim, trimmed};
use crate::table::Table;
use crate::text::{contains, lowercase, to_lowercase, within};
use vstd::prelude::*;

verus! {

/// The height of a row of the picker, in thousandths of a pixel.
pub const APP_ROW_H: u32 = 44_000;

/// The query that a search text stands for.
pub open spec fn query_of(search: Seq<char>) -> Seq<char> {
    lowercase(trimmed(search))
}

/// The query that a search text stands for: without white space at its ends,
/// in lower case.
pub fn search_query(search: &str) -> (query: String)
    ensures
        query@ == query_of(search@),
{
    to_lowercase(trim(search).as_str())
}

/// Whether an application with these names in lower case is found by `query`.
pub open spec fn found(name: Seq<char>, app: Seq<char>, query: Seq<char>) -> bool {
    query.len() == 0 || within(name, query) || within(app, query)
}

/// Whether an application with these names in lower case is found by `query`.
pub fn matches_lowered(name: &str, app: &str, query: &str) -> (matches: bool)
    ensures
        matches == found(name@, app@, query@),
{
    query.unicode_len() == 0 || contains(name, query) || contains(app, query)
}

/// Whether a choice is found by `query`.
pub open spec fn matches_query(choice: ProfileChoice, query: Seq<char>) -> bool {
    found(lowercase(choice.name@), lowercase(choice.app@), query)
}

/// Whether a choice is found by `query`: in its name or in its identifier.
pub fn profile_matches_query(choice: &ProfileChoice, query: &str) -> (matches: bool)
    ensures
        matches == matches_query(*choice, query@),
{
    matches_lowered(
        to_lowercase(choice.name.as_str()).as_str(),
        to_lowercase(choice.app.as_str()).as_str(),
        query,
    )
}

/// Those of the first `upto` choices that are found by `query`.
pub open spec fn filtered(
    choices: Seq<ProfileChoice>,
    query: Seq<char>,
    upto: int,
) -> Seq<ProfileChoice>
    decreases upto,
{
    if upto <= 0 {
        seq![]
    } else {
        let rest = filtered(choices, query, upto - 1);
        if matches_query(choices[upto - 1], query) {
            rest.push(choices[upto - 1])
        } else {
            rest
        }
    }
}

fn filter(choices: &Vec<ProfileChoice>, query: &str) -> (kept: Vec<ProfileChoice>)
    ensures
        kept@ == filtered(choices@, query@, choices@.len() as int),
{
    let mut kept: Vec<ProfileChoice> = Vec::new();
    let mut i: usize = 0;
    while i < choices.len()
        invariant
            i <= choices@.len(),
            kept@ == filtered(choices@, query@, i as int),
        decreases choices@.len() - i,
    {
        if profile_matches_query(&choices[i], query) {
            kept.push(choices[i].clone());
        }
        i += 1;
    }
    kept
}

/// What the picker says in place of applications.
#[derive(Debug, Clone, Copy, PartialEq, Eq, Structural)]
pub enum CatalogNotice {
    Loading,
    Unavailable,
    NothingFound,
}

/// What the picker shows.
#[derive(Debug)]
pub struct AddAppContent {
    pub recent: Vec<ProfileChoice>,
    /// Whether the list of all applications is unfolded.
    pub show_applications: bool,
    pub applications: Vec<ProfileChoice>,
    pub notice: Option<CatalogNotice>,
}

/// The applications of the catalog that are found.
pub open spec fn found_applications(
    catalog: CatalogPresentation,
    query: Seq<char>,
) -> Seq<ProfileChoice> {
    match catalog {
        CatalogPresentation::Ready(choices) => filtered(choices@, query, choices@.len() as int),
        _ => seq![],
    }
}

/// What the picker says in place of applications: that they are being loaded or
/// cannot be; that none was found, where there is none and, for a search, no
/// recent one either.
pub open spec fn notice(
    catalog: CatalogPresentation,
    query: Seq<char>,
    recent: nat,
) -> Option<CatalogNotice> {
    match catalog {
        CatalogPresentation::Loading => Some(CatalogNotice::Loading),
        CatalogPresentation::Failed => Some(CatalogNotice::Unavailable),
        CatalogPresentation::Ready(_) => if found_applications(catalog, query).len() == 0 && (
        query.len() == 0 || recent == 0) {
            Some(CatalogNotice::NothingFound)
        } else {
            None
        },
    }
}

/// What the picker shows for a query.
pub fn add_app_content(
    recent: &Vec<ProfileChoice>,
    catalog: &CatalogPresentation,
    expanded: bool,
    query: &str,
) -> (content: AddAppContent)
    ensures
        content.recent@ == filtered(recent@, query@, recent@.len() as int),
        content.show_applications == (expanded || query@.len() > 0),
        content.applications@ == if content.show_applications {
            found_applications(*catalog, query@)
        } else {
            seq![]
        },
        content.notice == if content.show_applications {
            notice(*catalog, query@, content.recent@.len())
        } else {
            None
        },
{
    let kept = filter(recent, query);
    let searching = query.unicode_len() > 0;
    if !expanded && !searching {
        return AddAppContent {
            recent: kept,
            show_applications: false,
            applications: Vec::new(),
            notice: None,
        };
    }
    match catalog {
        CatalogPresentation::Loading => AddAppContent {
            recent: kept,
            show_applications: true,
            applications: Vec::new(),
            notice: Some(CatalogNotice::Loading),
        },
        CatalogPresentation::Failed => AddAppContent {
            recent: kept,
            show_applications: true,
            applications: Vec::new(),
            notice: Some(CatalogNotice::Unavailable),
        },
        CatalogPresentation::Ready(choices) => {
            let applications = filter(choices, query);
            let none = applications.len() == 0 && (!searching || kept.len() == 0);
            AddAppContent {
                recent: kept,
                show_applications: true,
                applications,
                notice: if none {
                    Some(CatalogNotice::NothingFound)
                } else {
                    None
                },
            }
        },
    }
}

/// The height of the list of applications: six rows at most.
pub fn application_list_height(rows: usize) -> (height: u32)
    ensures
        height == APP_ROW_H * if rows < 6 {
            rows as int
        } else {
            6
        },
{
    let shown: u32 = if rows < 6 {
        rows as u32
    } else {
        6
    };
    APP_ROW_H * shown
}

/// An application's icon as it is known now.
#[derive(Debug, Clone, Copy, PartialEq, Eq, Structural)]
pub enum AppIconState {
    Ready,
    Loading,
    Missing,
}

/// Which icons were looked up, and which are being looked up.
#[derive(Debug)]
pub struct ProfileIconCache {
    /// Whether an icon was found.
    pub finished: Table<bool>,
    pub in_flight: Table<bool>,
}

impl ProfileIconCache {
    /// Nothing was looked up.
    pub fn new() -> (cache: Self)
        ensures
            cache.finished@ == Map::<Seq<char>, bool>::empty(),
            cache.in_flight@ == Map::<Seq<char>, bool>::empty(),
    {
        ProfileIconCache { finished: Table::new(), in_flight: Table::new() }
    }

    /// An application's icon as it is known now: one that is still looked up is
    /// told apart from one that there is not.
    pub open spec fn icon(self, app: Seq<char>) -> AppIconState {
        if !self.finished@.contains_key(app) {
            AppIconState::Loading
        } else if self.finished@[app] {
            AppIconState::Ready
        } else {
            AppIconState::Missing
        }
    }

    /// An application's icon as it is known now.
    pub fn state(&self, app: &str) -> (icon: AppIconState)
        ensures
            icon == self.icon(app@),
    {
        match self.finished.get(app) {
            Some(found) => if *found {
                AppIconState::Ready
            } else {
                AppIconState::Missing
            },
            None => AppIconState::Loading,
        }
    }

    /// Whether to look an icon up now: only if it neither was nor is being
    /// looked up.
    pub fn ensure_icon(&mut self, app: &str) -> (start: bool)
        ensures
            start == (!old(self).finished@.contains_key(app@) && !old(
                self).in_flight@.contains_key(app@)),
            final(self).finished@ == old(self).finished@,
            final(self).in_flight@ == if start {
                old(self).in_flight@.insert(app@, true)
            } else {
                old(self).in_flight@
            },
    {
        if self.finished.contains_key(app) || self.in_flight.contains_key(app) {
            return false;
        }
        self.in_flight.insert(app, true);
        true
    }

    /// An icon was looked up.
    pub fn resolved(&mut self, app: &str, found: bool)
        ensures
            final(self).finished@ == old(self).finished@.insert(app@, found),
            final(self).in_flight@ == old(self).in_flight@.remove(app@),
    {
        self.finished.insert(app, found);
        self.in_flight.remove(app);
    }
}

/// An empty query finds everything.
pub proof fn an_empty_query_finds_all(choices: Seq<ProfileChoice>, query: Seq<char>, upto: int)
    requires
        query.len() == 0,
        0 <= upto <= choices.len(),
    ensures
        filtered(choices, query, upto) == choices.take(upto),
    decreases upto,
{
    if upto > 0 {
        an_empty_query_finds_all(choices, query, upto - 1);
        assert(choices.take(upto) =~= choices.take(upto - 1).push(choices[upto - 1]));
    } else {
        assert(choices.take(0) =~= seq![]);
    }
}

} // verus!
