//! The gallery's three layouts: grid, list and carousel.

use crate::device::{BatteryInfo, DeviceKind};
use crate::hid::Rgb;
use crate::record::DeviceRecord;
use crate::services::assets::metadata::GlowGeometry;
use crate::state::event::StateEvent;
use crate::state::refresh::Selection;
use crate::state::AppState;
use crate::text::same_text;
use crate::window::home::{
    card_of, connection_summary, connection_view, custom_model_subtitle, depicts, device_card,
    device_image, device_menu, glow_of, keyboard_glow, menu_of, opacity_of, record_icon,
    subtitle_of, summary_of, ConnectionView, DeviceCard, DeviceFacts, DeviceImage, DeviceMenu,
};
use crate::window::phrase::{append, phrase, push, Piece, PieceView};
use crate::window::widgets::{connectivity, kind_label, kind_message, status_badge};
use std::sync::Arc;
use vstd::prelude::*;

verus! {

/// How the gallery is laid out.
#[derive(Debug, Clone, Copy, PartialEq, Eq, Structural)]
pub enum DeviceViewMode {
    Grid,
    List,
    Carousel,
}

/// One button of the layout switcher.
#[derive(Debug, Clone, Copy)]
pub struct ViewToggle {
    pub mode: DeviceViewMode,
    pub tooltip: &'static str,
    pub checked: bool,
}

/// Whether `toggle` is the button of a layout.
pub open spec fn toggle_of(
    toggle: ViewToggle,
    mode: DeviceViewMode,
    tooltip: Seq<char>,
    current: DeviceViewMode,
) -> bool {
    toggle.mode == mode && toggle.tooltip@ == tooltip && toggle.checked == (current == mode)
}

/// The buttons of the layout switcher.
pub fn device_view_switcher(current: DeviceViewMode) -> (toggles: Vec<ViewToggle>)
    ensures
        toggles@.len() == 3,
        toggle_of(toggles@[0], DeviceViewMode::Grid, "common.grid"@, current),
        toggle_of(toggles@[1], DeviceViewMode::List, "common.list"@, current),
        toggle_of(toggles@[2], DeviceViewMode::Carousel, "common.carousel"@, current),
{
    vec![
        ViewToggle {
            mode: DeviceViewMode::Grid,
            tooltip: "common.grid",
            checked: current == DeviceViewMode::Grid,
        },
        ViewToggle {
            mode: DeviceViewMode::List,
            tooltip: "common.list",
            checked: current == DeviceViewMode::List,
        },
        ViewToggle {
            mode: DeviceViewMode::Carousel,
            tooltip: "common.carousel",
            checked: current == DeviceViewMode::Carousel,
        },
    ]
}

/// The layout that a click on a button switches to. A click that would only
/// uncheck the current layout does nothing.
pub fn view_switched(mode: DeviceViewMode, checked: bool) -> (next: Option<DeviceViewMode>)
    ensures
        next == if checked {
            Some(mode)
        } else {
            None
        },
{
    if checked {
        Some(mode)
    } else {
        None
    }
}

/// The layout that is shown: as the settings say, or the grid before there are
/// any.
pub fn gallery_mode(saved: Option<DeviceViewMode>) -> (mode: DeviceViewMode)
    ensures
        mode == match saved {
            Some(mode) => mode,
            None => DeviceViewMode::Grid,
        },
{
    match saved {
        Some(mode) => mode,
        None => DeviceViewMode::Grid,
    }
}

/// The positions among the first `upto` records of those that are online, or of
/// those that are not.
pub open spec fn positions(records: Seq<DeviceRecord>, online: bool, upto: int) -> Seq<usize>
    decreases upto,
{
    if upto <= 0 {
        seq![]
    } else {
        let rest = positions(records, online, upto - 1);
        if records[upto - 1].online == online {
            rest.push((upto - 1) as usize)
        } else {
            rest
        }
    }
}

/// The order of the gallery: connected devices first, each group in the order
/// of the records.
pub open spec fn gallery_order(records: Seq<DeviceRecord>) -> Seq<usize> {
    positions(records, true, records.len() as int) + positions(
        records,
        false,
        records.len() as int,
    )
}

fn push_positions(records: &Vec<DeviceRecord>, online: bool, indices: &mut Vec<usize>)
    ensures
        final(indices)@ == old(indices)@ + positions(records@, online, records@.len() as int),
{
    let ghost before = indices@;
    let mut i: usize = 0;
    assert(indices@ =~= before + positions(records@, online, 0));
    while i < records.len()
        invariant
            i <= records@.len(),
            indices@ == before + positions(records@, online, i as int),
        decreases records@.len() - i,
    {
        if records[i].online == online {
            indices.push(i);
        }
        i += 1;
        assert(indices@ =~= before + positions(records@, online, i as int));
    }
}

/// The order of the gallery.
pub fn ordered_device_indices(records: &Vec<DeviceRecord>) -> (indices: Vec<usize>)
    ensures
        indices@ == gallery_order(records@),
{
    let mut indices: Vec<usize> = Vec::new();
    push_positions(records, true, &mut indices);
    push_positions(records, false, &mut indices);
    assert(indices@ =~= gallery_order(records@));
    indices
}

/// Where `sought` stands from position `from` on.
pub open spec fn place_of(order: Seq<usize>, sought: usize, from: int) -> Option<int>
    decreases order.len() - from,
{
    if from < 0 || from >= order.len() {
        None
    } else if order[from] == sought {
        Some(from)
    } else {
        place_of(order, sought, from + 1)
    }
}

/// Which card the carousel rests on: the selected device's, or the first.
pub fn carousel_position(order: &Vec<usize>, active: usize) -> (position: usize)
    ensures
        position == match place_of(order@, active, 0) {
            Some(place) => place,
            None => 0,
        },
{
    let mut i: usize = 0;
    while i < order.len()
        invariant
            i <= order@.len(),
            place_of(order@, active, 0) == place_of(order@, active, i as int),
        decreases order@.len() - i,
    {
        if order[i] == active {
            return i;
        }
        i += 1;
    }
    0
}

/// The carousel came to rest on a card: its device is selected, and the panels
/// are told if that changed anything.
pub fn carousel_selected(state: &mut AppState, order: &Vec<usize>, position: usize) -> (selected:
    Option<(Selection, StateEvent)>)
    ensures
        position >= order@.len() ==> selected is None && *final(state) == *old(state),
        position < order@.len() ==> {
            let index = order@[position as int];
            &&& selected is Some == (index < old(state).devices.records@.len()
                && old(state).devices.selected != Some(index))
            &&& match selected {
                Some((selection, event)) => {
                    &&& old(state).selects(*final(state), index, selection)
                    &&& (event matches StateEvent::DeviceSelected(key) && key@ == selection.key@)
                },
                None => *final(state) == *old(state),
            }
        },
{
    if position >= order.len() {
        return None;
    }
    match state.set_current_device(order[position]) {
        Some(selection) => {
            let key = selection.key.clone();
            Some((selection, StateEvent::DeviceSelected(key)))
        },
        None => None,
    }
}

/// A device's picture and what is told to screen readers.
#[derive(Debug)]
pub struct GalleryCard {
    pub card: DeviceCard,
    pub label: String,
    pub description: Vec<Piece>,
    pub active: bool,
}

/// Whether a light is drawn as shining.
pub open spec fn shines(record: DeviceRecord, facts: DeviceFacts) -> bool {
    record.kind == DeviceKind::Light && facts.light_on
}

/// Whether `element` is the card of the device at `index`, with `active` the
/// selected one.
pub open spec fn is_card_of(
    element: GalleryCard,
    state: AppState,
    index: int,
    active: int,
    facts: DeviceFacts,
) -> bool {
    let record = state.devices.records@[index];
    &&& card_of(
        element.card,
        record,
        facts.enabled,
        glow_of(state, record, facts.transient),
        shines(record, facts),
    )
    &&& element.label@ == record.display_name@
    &&& phrase(element.description@) == described(record)
    &&& element.active == (index == active)
}

/// The card of the device at `index`, with `active` the selected one.
pub fn device_card_element(state: &AppState, index: usize, active: usize, facts: DeviceFacts) -> (
element: GalleryCard)
    requires
        index < state.devices.records@.len(),
    ensures
        is_card_of(element, *state, index as int, active as int, facts),
{
    let record = &state.devices.records[index];
    let glow = keyboard_glow(state, record, facts.transient);
    let light_enabled = record.kind == DeviceKind::Light && facts.light_on;
    GalleryCard {
        card: device_card(record, facts.enabled, glow, light_enabled),
        label: record.display_name.clone(),
        description: device_accessibility_description(record),
        active: index == active,
    }
}

/// A row of the list.
#[derive(Debug)]
pub struct DeviceRow {
    pub record_key: String,
    pub name: String,
    pub kind: &'static str,
    pub subtitle: Option<String>,
    pub ringed: bool,
    pub opacity: u8,
    pub glow: Option<(Arc<GlowGeometry>, Rgb)>,
    pub image: DeviceImage,
    pub connection: ConnectionView,
    pub battery: Option<BatteryInfo>,
    pub menu: Option<DeviceMenu>,
    pub description: Vec<Piece>,
    pub active: bool,
}

/// Whether `row` is the row of the device at `index`, with `active` the selected
/// one.
pub open spec fn is_row_of(
    row: DeviceRow,
    state: AppState,
    index: int,
    active: int,
    facts: DeviceFacts,
) -> bool {
    let record = state.devices.records@[index];
    &&& row.record_key@ == record.record_key@
    &&& row.name@ == record.display_name@
    &&& row.kind@ == kind_message(record.kind)
    &&& crate::text::owned_view(row.subtitle) == subtitle_of(record)
    &&& row.ringed == !facts.enabled
    &&& row.opacity == opacity_of(record.online)
    &&& row.glow == glow_of(state, record, facts.transient)
    &&& depicts(row.image, record, shines(record, facts))
    &&& row.connection.online == record.online
    &&& row.connection.status@ == connectivity(record.online)
    &&& row.connection.icon == record_icon(record)
    &&& phrase(row.connection.summary@) == summary_of(record.route, record.slot)
    &&& row.battery == record.battery
    &&& match row.menu {
        Some(menu) => record.persistent && menu_of(menu, record),
        None => !record.persistent,
    }
    &&& phrase(row.description@) == described(record)
    &&& row.active == (index == active)
}

/// The row of the device at `index`, with `active` the selected one.
pub fn device_list_row(state: &AppState, index: usize, active: usize, facts: DeviceFacts) -> (row:
    DeviceRow)
    requires
        index < state.devices.records@.len(),
    ensures
        is_row_of(row, *state, index as int, active as int, facts),
{
    let record = &state.devices.records[index];
    let light_enabled = record.kind == DeviceKind::Light && facts.light_on;
    DeviceRow {
        record_key: record.record_key.clone(),
        name: record.display_name.clone(),
        kind: kind_label(record.kind),
        subtitle: custom_model_subtitle(record),
        ringed: !facts.enabled,
        opacity: if record.online {
            100
        } else {
            38
        },
        glow: keyboard_glow(state, record, facts.transient),
        image: device_image(record, light_enabled),
        connection: connection_view(record),
        battery: record.battery,
        menu: if record.persistent {
            Some(device_menu(record))
        } else {
            None
        },
        description: device_accessibility_description(record),
        active: index == active,
    }
}

/// The position of the selected device, or the first one.
pub open spec fn active_position(state: AppState) -> int {
    match state.devices.selected {
        Some(selected) => selected as int,
        None => 0,
    }
}

fn active_index(state: &AppState) -> (active: usize)
    ensures
        active == active_position(*state),
{
    match state.devices.selected_index() {
        Some(selected) => selected,
        None => 0,
    }
}

/// Whether `cards` are the cards of all devices in the order of the gallery,
/// with `facts` what the settings say of each device.
pub open spec fn shows_cards(
    cards: Seq<GalleryCard>,
    state: AppState,
    facts: Seq<DeviceFacts>,
) -> bool {
    let order = gallery_order(state.devices.records@);
    &&& cards.len() == order.len()
    &&& forall|i: int|
        0 <= i < cards.len() ==> is_card_of(
            #[trigger] cards[i],
            state,
            order[i] as int,
            active_position(state),
            facts[order[i] as int],
        )
}

/// Whether `rows` are the rows of all devices in the order of the gallery, with
/// `facts` what the settings say of each device.
pub open spec fn shows_rows(
    rows: Seq<DeviceRow>,
    state: AppState,
    facts: Seq<DeviceFacts>,
) -> bool {
    let order = gallery_order(state.devices.records@);
    &&& rows.len() == order.len()
    &&& forall|i: int|
        0 <= i < rows.len() ==> is_row_of(
            #[trigger] rows[i],
            state,
            order[i] as int,
            active_position(state),
            facts[order[i] as int],
        )
}

/// The cards of the grid, one for each device, in the order of the gallery.
pub fn device_grid(state: &AppState, facts: &Vec<DeviceFacts>) -> (cards: Vec<GalleryCard>)
    requires
        facts@.len() == state.devices.records@.len(),
    ensures
        shows_cards(cards@, *state, facts@),
{
    let active = active_index(state);
    let order = ordered_device_indices(&state.devices.records);
    proof {
        assert(state.devices.records.len() <= usize::MAX);
        order_stays_in_range(state.devices.records@);
    }
    let mut cards: Vec<GalleryCard> = Vec::new();
    let mut i: usize = 0;
    while i < order.len()
        invariant
            i <= order@.len(),
            cards@.len() == i,
            facts@.len() == state.devices.records@.len(),
            active == active_position(*state),
            order@ == gallery_order(state.devices.records@),
            forall|k: int|
                0 <= k < order@.len() ==> (#[trigger] order@[k]) < state.devices.records@.len(),
            forall|k: int|
                0 <= k < i ==> is_card_of(
                    #[trigger] cards@[k],
                    *state,
                    order@[k] as int,
                    active_position(*state),
                    facts@[order@[k] as int],
                ),
        decreases order@.len() - i,
    {
        let index: usize = order[i];
        cards.push(device_card_element(state, index, active, facts[index]));
        i += 1;
    }
    cards
}

/// The rows of the list, one for each device, in the order of the gallery.
pub fn device_list(state: &AppState, facts: &Vec<DeviceFacts>) -> (rows: Vec<DeviceRow>)
    requires
        facts@.len() == state.devices.records@.len(),
    ensures
        shows_rows(rows@, *state, facts@),
{
    let active = active_index(state);
    let order = ordered_device_indices(&state.devices.records);
    proof {
        assert(state.devices.records.len() <= usize::MAX);
        order_stays_in_range(state.devices.records@);
    }
    let mut rows: Vec<DeviceRow> = Vec::new();
    let mut i: usize = 0;
    while i < order.len()
        invariant
            i <= order@.len(),
            rows@.len() == i,
            facts@.len() == state.devices.records@.len(),
            active == active_position(*state),
            order@ == gallery_order(state.devices.records@),
            forall|k: int|
                0 <= k < order@.len() ==> (#[trigger] order@[k]) < state.devices.records@.len(),
            forall|k: int|
                0 <= k < i ==> is_row_of(
                    #[trigger] rows@[k],
                    *state,
                    order@[k] as int,
                    active_position(*state),
                    facts@[order@[k] as int],
                ),
        decreases order@.len() - i,
    {
        let index: usize = order[i];
        rows.push(device_list_row(state, index, active, facts[index]));
        i += 1;
    }
    rows
}

/// The gallery as it is laid out.
#[derive(Debug)]
pub enum Gallery {
    Grid(Vec<GalleryCard>),
    List(Vec<DeviceRow>),
    /// The cards, and the one that the carousel rests on.
    Carousel(Vec<GalleryCard>, usize),
}

/// The gallery, in the layout that the settings say.
pub fn device_gallery(
    state: &AppState,
    facts: &Vec<DeviceFacts>,
    saved: Option<DeviceViewMode>,
) -> (gallery: Gallery)
    requires
        facts@.len() == state.devices.records@.len(),
    ensures
        match saved {
            Some(DeviceViewMode::List) => gallery matches Gallery::List(rows) && shows_rows(
                rows@,
                *state,
                facts@,
            ),
            Some(DeviceViewMode::Carousel) => gallery matches Gallery::Carousel(cards, position)
                && shows_cards(cards@, *state, facts@) && position == match place_of(
                gallery_order(state.devices.records@),
                active_position(*state) as usize,
                0,
            ) {
                Some(place) => place,
                None => 0,
            },
            _ => gallery matches Gallery::Grid(cards) && shows_cards(cards@, *state, facts@),
        },
{
    match gallery_mode(saved) {
        DeviceViewMode::Grid => Gallery::Grid(device_grid(state, facts)),
        DeviceViewMode::List => Gallery::List(device_list(state, facts)),
        DeviceViewMode::Carousel => {
            let order = ordered_device_indices(&state.devices.records);
            let position: usize = carousel_position(&order, active_index(state));
            Gallery::Carousel(device_grid(state, facts), position)
        },
    }
}

proof fn order_stays_in_range(records: Seq<DeviceRecord>)
    requires
        records.len() <= usize::MAX,
    ensures
        forall|k: int|
            0 <= k < gallery_order(records).len() ==> (#[trigger] gallery_order(records)[k])
                < records.len(),
{
    let n = records.len() as int;
    positions_are_those(records, true, n);
    positions_are_those(records, false, n);
    let up = positions(records, true, n);
    let down = positions(records, false, n);
    assert forall|k: int| 0 <= k < gallery_order(records).len() implies (
    #[trigger] gallery_order(records)[k]) < records.len() by {
        if k < up.len() {
            assert(gallery_order(records)[k] == up[k]);
        } else {
            assert(gallery_order(records)[k] == down[k - up.len()]);
        }
    }
}

/// What is told of a battery.
pub open spec fn battery_phrase(battery: BatteryInfo, online: bool) -> Seq<PieceView> {
    if battery.charging_without_reading {
        seq![PieceView::Message("device.charging"@)]
    } else {
        seq![
            PieceView::Message(
                if online {
                    "device.battery"@
                } else {
                    "device.last_known_battery"@
                },
            ),
            PieceView::Text(" "@),
            PieceView::Number(battery.percentage as nat),
            PieceView::Text("%"@),
        ]
    }
}

/// What is told of a device's model and kind.
pub open spec fn identity_phrase(record: DeviceRecord) -> Seq<PieceView> {
    let kind = PieceView::Message(kind_message(record.kind));
    if record.display_name@ == record.model_name@ {
        seq![kind]
    } else {
        seq![PieceView::Text(record.model_name@), PieceView::Text(". "@), kind]
    }
}

/// What is told of a device to screen readers: whether it is connected, what it
/// is, how it is reached and its battery.
pub open spec fn described(record: DeviceRecord) -> Seq<PieceView> {
    let metadata = seq![
        PieceView::Message(connectivity(record.online)),
        PieceView::Text(". "@),
    ] + identity_phrase(record) + seq![PieceView::Text(". "@)] + summary_of(
        record.route,
        record.slot,
    ) + seq![PieceView::Text("."@)];
    match record.battery {
        Some(battery) => metadata + seq![PieceView::Text(" "@)] + battery_phrase(
            battery,
            record.online,
        ) + seq![PieceView::Text("."@)],
        None => metadata,
    }
}

/// What is told of a device to screen readers.
pub fn device_accessibility_description(record: &DeviceRecord) -> (description: Vec<Piece>)
    ensures
        phrase(description@) == described(*record),
{
    let mut description: Vec<Piece> = Vec::new();
    push(&mut description, Piece::Message(status_badge(record.online)));
    push(&mut description, Piece::Mark(". "));
    assert(phrase(description@) =~= seq![
        PieceView::Message(connectivity(record.online)),
        PieceView::Text(". "@),
    ]);
    append(&mut description, identity_pieces(record));
    append(&mut description, mark_alone(". "));
    append(&mut description, connection_summary(record));
    append(&mut description, mark_alone("."));
    if let Some(battery) = record.battery {
        append(&mut description, mark_alone(" "));
        append(&mut description, battery_pieces(battery, record.online));
        append(&mut description, mark_alone("."));
    }
    description
}

fn mark_alone(mark: &'static str) -> (pieces: Vec<Piece>)
    ensures
        phrase(pieces@) == seq![PieceView::Text(mark@)],
{
    let mut pieces: Vec<Piece> = Vec::new();
    pieces.push(Piece::Mark(mark));
    assert(phrase(pieces@) =~= seq![PieceView::Text(mark@)]);
    pieces
}

fn identity_pieces(record: &DeviceRecord) -> (pieces: Vec<Piece>)
    ensures
        phrase(pieces@) == identity_phrase(*record),
{
    let mut pieces: Vec<Piece> = Vec::new();
    if !same_text(record.display_name.as_str(), record.model_name.as_str()) {
        pieces.push(Piece::Text(record.model_name.clone()));
        pieces.push(Piece::Mark(". "));
    }
    pieces.push(Piece::Message(kind_label(record.kind)));
    assert(phrase(pieces@) =~= identity_phrase(*record));
    pieces
}

fn battery_pieces(battery: BatteryInfo, online: bool) -> (pieces: Vec<Piece>)
    ensures
        phrase(pieces@) == battery_phrase(battery, online),
{
    let mut pieces: Vec<Piece> = Vec::new();
    if battery.charging_without_reading {
        pieces.push(Piece::Message("device.charging"));
    } else {
        let label = if online {
            "device.battery"
        } else {
            "device.last_known_battery"
        };
        pieces.push(Piece::Message(label));
        pieces.push(Piece::Mark(" "));
        pieces.push(Piece::Number(battery.percentage as u64));
        pieces.push(Piece::Mark("%"));
    }
    assert(phrase(pieces@) =~= battery_phrase(battery, online));
    pieces
}

proof fn positions_are_those(records: Seq<DeviceRecord>, online: bool, upto: int)
    requires
        0 <= upto <= records.len() <= usize::MAX,
    ensures
        forall|k: int|
            0 <= k < positions(records, online, upto).len() ==> {
                let at = #[trigger] positions(records, online, upto)[k];
                at < upto && records[at as int].online == online
            },
        forall|j: int, k: int|
            0 <= j < k < positions(records, online, upto).len() ==> #[trigger] positions(
                records,
                online,
                upto,
            )[j] < #[trigger] positions(records, online, upto)[k],
        forall|at: int|
            0 <= at < upto && (#[trigger] records[at]).online == online ==> positions(
                records,
                online,
                upto,
            ).contains(at as usize),
        positions(records, true, upto).len() + positions(records, false, upto).len() == upto,
    decreases upto,
{
    if upto > 0 {
        positions_are_those(records, online, upto - 1);
        let rest = positions(records, online, upto - 1);
        let all = positions(records, online, upto);
        if records[upto - 1].online == online {
            assert(all == rest.push((upto - 1) as usize));
            assert(all[rest.len() as int] == (upto - 1) as usize);
        }
        assert forall|at: int|
            0 <= at < upto && (#[trigger] records[at]).online == online implies all.contains(
            at as usize,
        ) by {
            if at < upto - 1 {
                assert(rest.contains(at as usize));
                let k = choose|k: int| 0 <= k < rest.len() && rest[k] == at as usize;
                assert(all[k] == at as usize);
            }
        }
    }
}

/// The gallery shows every device once.
pub proof fn each_device_is_shown_once(records: Seq<DeviceRecord>, at: int)
    requires
        records.len() <= usize::MAX,
        0 <= at < records.len(),
    ensures
        gallery_order(records).len() == records.len(),
        gallery_order(records).contains(at as usize),
        gallery_order(records).no_duplicates(),
{
    let n = records.len() as int;
    positions_are_those(records, true, n);
    positions_are_those(records, false, n);
    let up = positions(records, true, n);
    let down = positions(records, false, n);
    let order = gallery_order(records);
    assert(order == up + down);
    if records[at].online {
        assert(up.contains(at as usize));
        let k = choose|k: int| 0 <= k < up.len() && up[k] == at as usize;
        assert(order[k] == at as usize);
    } else {
        assert(down.contains(at as usize));
        let k = choose|k: int| 0 <= k < down.len() && down[k] == at as usize;
        assert(order[up.len() + k] == at as usize);
    }
    assert forall|i: int, j: int| 0 <= i < order.len() && 0 <= j < order.len() && i != j implies order[i]
        != order[j] by {
        if i < up.len() {
            assert(order[i] == up[i]);
        } else {
            assert(order[i] == down[i - up.len()]);
        }
        if j < up.len() {
            assert(order[j] == up[j]);
        } else {
            assert(order[j] == down[j - up.len()]);
        }
    }
}

/// Connected devices stand before the others, and devices of one group stand as
/// in the list of devices.
pub proof fn connected_devices_come_first(records: Seq<DeviceRecord>, j: int, k: int)
    requires
        records.len() <= usize::MAX,
        0 <= j < k < gallery_order(records).len(),
    ensures
        ({
            let first = gallery_order(records)[j] as int;
            let second = gallery_order(records)[k] as int;
            &&& records[second].online ==> records[first].online
            &&& records[first].online == records[second].online ==> first < second
        }),
{
    let n = records.len() as int;
    positions_are_those(records, true, n);
    positions_are_those(records, false, n);
    let up = positions(records, true, n);
    let down = positions(records, false, n);
    let order = gallery_order(records);
    assert(order == up + down);
    if k < up.len() {
        assert(order[j] == up[j]);
        assert(order[k] == up[k]);
    } else {
        assert(order[k] == down[k - up.len()]);
        if j < up.len() {
            assert(order[j] == up[j]);
        } else {
            assert(order[j] == down[j - up.len()]);
        }
    }
}

} // verus!
