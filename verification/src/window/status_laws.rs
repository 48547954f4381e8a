//! What the window says in place of a screen, and how its phrases are spelled.

use crate::device::{DeviceKind, DeviceRoute, DeviceTransports};
use crate::record::DeviceRecord;
use crate::state::AppState;
use crate::table::Table;
use crate::text::push_decimal;
use crate::window::home::views::{
    carousel_position, device_gallery, device_view_switcher, each_device_is_shown_once,
    gallery_mode, ordered_device_indices, DeviceViewMode, Gallery, ViewToggle,
};
use crate::window::home::{
    connection_icon, connection_icon_path, connection_summary, connection_view, device_count_label,
    transport_glance, ConnectionIcon, ConnectionView, DeviceFacts, GlanceColor, TransportGlance,
};
use crate::window::phrase::{compose, composed, phrase, Piece, PieceView};
use crate::window::status::{
    attention_footer, config_issue_body, connecting_body, device_empty_state,
    device_scanning_state, outdated_gui_body, scanning_unavailable_state, unreachable_body, Frame,
    FrameButton,
};
use crate::window::widgets::{kind_label, status_badge};
use vstd::prelude::*;

verus! {

proof fn the_first_pieces_spell_the_beginning(
    a: Seq<PieceView>,
    b: Seq<PieceView>,
    messages: Map<Seq<char>, String>,
    upto: int,
)
    requires
        0 <= upto <= a.len(),
        upto <= b.len(),
        forall|k: int| 0 <= k < upto ==> #[trigger] a[k] == b[k],
    ensures
        composed(a, messages, upto) == composed(b, messages, upto),
    decreases upto,
{
    if upto > 0 {
        assert(a[upto - 1] == b[upto - 1]);
        the_first_pieces_spell_the_beginning(a, b, messages, upto - 1);
    }
}

/// A phrase is spelled piece by piece: a message in the window's language, or as
/// its key where the language lacks it, a text as it is, and a number in
/// digits. No piece, no text.
pub proof fn a_phrase_is_spelled_piece_by_piece(
    pieces: &Vec<Piece>,
    more: &Vec<Piece>,
    messages: &Table<String>,
    piece: Piece,
    short: String,
    long: String,
    number: &mut String,
    value: u64,
)
    requires
        call_ensures(compose, (pieces, messages), short),
        more@ == pieces@.push(piece),
        call_ensures(compose, (more, messages), long),
        old(number)@ == Seq::<char>::empty(),
        call_ensures(push_decimal, (number, value), ()),
    ensures
        pieces@.len() == 0 ==> short@.len() == 0,
        piece matches Piece::Text(text) ==> long@ == short@ + text@,
        piece matches Piece::Mark(mark) ==> long@ == short@ + mark@,
        piece matches Piece::Message(key) ==> messages@.contains_key(key@) ==> long@ == short@
            + messages@[key@]@,
        piece matches Piece::Message(key) ==> !messages@.contains_key(key@) ==> long@ == short@
            + key@,
        piece == Piece::Number(value) ==> long@ == short@ + final(number)@,
{
    let n = pieces@.len() as int;
    let (a, b) = (phrase(pieces@), phrase(more@));
    assert forall|k: int| 0 <= k < n implies #[trigger] a[k] == b[k] by {
        assert(more@[k] == pieces@[k]);
    }
    the_first_pieces_spell_the_beginning(a, b, messages@, n);
    assert(b[n] == piece@);
    assert(final(number)@ =~= crate::text::decimal(value as nat));
}

/// While the service is being reached the window waits, and says so once it
/// cannot be.
pub proof fn the_window_waits_for_the_service(
    connecting: Frame,
    scanning: Frame,
    unreachable: Frame,
    unavailable: Frame,
)
    requires
        call_ensures(connecting_body, (), connecting),
        call_ensures(device_scanning_state, (), scanning),
        call_ensures(unreachable_body, (), unreachable),
        call_ensures(scanning_unavailable_state, (), unavailable),
    ensures
        connecting matches Frame::Loading { message } && message@
            == "agent.connecting_to_the_background_service"@,
        scanning matches Frame::Loading { message } && message@ == "agent.scanning_for_devices"@,
        unreachable matches Frame::Notice { headline, caption, buttons } && headline@
            == "agent.cant_reach_the_background_service"@ && caption@ == PieceView::Message(
            "agent.agent_connection_retry"@,
        ) && buttons@.len() == 0,
        unavailable matches Frame::Notice { headline, caption, buttons } && headline@
            == "agent.device_scanning_is_unavailable"@ && caption@ == PieceView::Message(
            "agent.device_scan_failure_description"@,
        ) && buttons@.len() == 0,
{
}

/// A window that is older than the service offers to start again; settings that
/// cannot be read offer their folder too, and say what is wrong with them.
pub proof fn a_way_out_is_offered(
    outdated: Frame,
    message: &str,
    broken: Frame,
    empty: Frame,
    button: FrameButton,
    label: &'static str,
)
    requires
        call_ensures(outdated_gui_body, (), outdated),
        call_ensures(config_issue_body, (message,), broken),
        call_ensures(device_empty_state, (), empty),
        call_ensures(FrameButton::label, (button,), label),
    ensures
        outdated matches Frame::Notice { headline, caption, buttons } && headline@
            == "agent.openlogi_was_updated"@ && caption@ == PieceView::Message(
            "agent.updated_window_requires_relaunch"@,
        ) && buttons@.len() == 1 && buttons@[0] == FrameButton::Relaunch,
        broken matches Frame::Notice { headline, caption, buttons } && headline@
            == "device.configuration"@ && caption@ == PieceView::Text(message@) && buttons@.len()
            == 2 && buttons@[0] == FrameButton::OpenConfigFolder && buttons@[1]
            == FrameButton::Relaunch,
        empty matches Frame::Empty { headline, help, button, hint } && headline@
            == "device.no_devices_connected"@ && help@ == "device.device_connection_help"@ && button
            == FrameButton::AddDevice && hint@ == "device.quit_logi_options_hid_access"@,
        button == FrameButton::Relaunch ==> label@ == "agent.relaunch_openlogi"@,
        button == FrameButton::OpenConfigFolder ==> label@ == "app.open_configuration_folder"@,
        button == FrameButton::AddDevice ==> label@ == "pairing.add_device"@,
{
}

/// The footer asks for the permission that is missing, and only then.
pub proof fn a_missing_permission_is_asked_for(missing: bool, message: Option<&'static str>)
    requires
        call_ensures(attention_footer, (missing,), message),
    ensures
        message is Some <==> missing,
        message matches Some(message) ==> message@
            == "permissions.accessibility_not_granted_click_to_grant"@,
{
}

/// Each kind of device has its name.
pub proof fn kinds_have_their_names(kind: DeviceKind, label: &'static str)
    requires
        call_ensures(kind_label, (kind,), label),
    ensures
        kind == DeviceKind::Mouse ==> label@ == "device.mouse"@,
        kind == DeviceKind::Keyboard ==> label@ == "device.keyboard"@,
        kind == DeviceKind::Numpad ==> label@ == "device.numpad"@,
        kind == DeviceKind::Presenter ==> label@ == "device.presenter"@,
        kind == DeviceKind::Remote ==> label@ == "device.remote"@,
        kind == DeviceKind::Trackball ==> label@ == "device.trackball"@,
        kind == DeviceKind::Touchpad ==> label@ == "device.touchpad"@,
        kind == DeviceKind::Tablet ==> label@ == "device.tablet"@,
        kind == DeviceKind::Gamepad ==> label@ == "device.gamepad"@,
        kind == DeviceKind::Joystick ==> label@ == "device.joystick"@,
        kind == DeviceKind::Headset ==> label@ == "device.headset"@,
        kind == DeviceKind::Camera ==> label@ == "camera.camera"@,
        kind == DeviceKind::Light ==> label@ == "device.lighting"@,
        kind == DeviceKind::Unknown ==> label@ == "device.device"@,
{
}

/// One device is counted in the singular.
pub proof fn one_device_is_counted_in_the_singular(n: usize, label: (&'static str, usize))
    requires
        call_ensures(device_count_label, (n,), label),
    ensures
        label.1 == n,
        n == 1 ==> label.0@ == "device.device_count_singular"@,
        n != 1 ==> label.0@ == "device.device_count_plural"@,
{
}

/// A link's glyph is drawn from its file.
pub proof fn glyphs_have_their_files(
    route: Option<DeviceRoute>,
    transports: Option<DeviceTransports>,
    icon: ConnectionIcon,
    path: &'static str,
)
    requires
        call_ensures(connection_icon, (route, transports), icon),
        call_ensures(connection_icon_path, (route, transports), path),
    ensures
        icon == ConnectionIcon::Bolt ==> path@ == "action-icons/bolt.svg"@,
        icon == ConnectionIcon::Unifying ==> path@ == "action-icons/unifying.svg"@,
        icon == ConnectionIcon::Usb ==> path@ == "action-icons/usb.svg"@,
        icon == ConnectionIcon::Bluetooth ==> path@ == "action-icons/bluetooth.svg"@,
{
}

/// The glyph of a device is that of its link, but a camera's is the cable; its
/// color goes by the glyph, and its hint says whether the device is connected and
/// how it is reached.
pub proof fn a_devices_glyph_is_that_of_its_link(
    record: &DeviceRecord,
    transports: Option<DeviceTransports>,
    icon: ConnectionIcon,
    glance: TransportGlance,
    view: ConnectionView,
    badge: &'static str,
    summary: Vec<Piece>,
    k: int,
)
    requires
        transports == (match record.model_info {
            Some(model) => Some(model.transports),
            None => None,
        }),
        call_ensures(connection_icon, (record.route, transports), icon),
        call_ensures(transport_glance, (record,), glance),
        call_ensures(connection_view, (record,), view),
        call_ensures(status_badge, (record.online,), badge),
        call_ensures(connection_summary, (record,), summary),
    ensures
        record.kind == DeviceKind::Camera ==> glance.icon == ConnectionIcon::Usb,
        record.kind != DeviceKind::Camera ==> glance.icon == icon,
        view.icon == glance.icon,
        view.online == record.online,
        view.status@ == badge@,
        view.summary@.len() == summary@.len(),
        0 <= k < summary@.len() ==> view.summary@[k]@ == summary@[k]@,
        glance.color == GlanceColor::Accent <==> glance.icon == ConnectionIcon::Bluetooth,
        glance.color == GlanceColor::Muted <==> glance.icon == ConnectionIcon::Usb,
        glance.hint@.len() == summary@.len() + 2,
        glance.hint@[0]@ == PieceView::Message(badge@),
        0 <= k < summary@.len() ==> glance.hint@[k + 2]@ == summary@[k]@,
{
    let hint = phrase(glance.hint@);
    let parts = phrase(summary@);
    assert(hint.len() == glance.hint@.len());
    assert(parts.len() == summary@.len());
    assert(phrase(view.summary@).len() == view.summary@.len());
    assert(hint[0] == glance.hint@[0]@);
    if 0 <= k < summary@.len() {
        assert(parts[k] == summary@[k]@);
        assert(phrase(view.summary@)[k] == view.summary@[k]@);
        assert(hint[k + 2] == glance.hint@[k + 2]@);
    }
}

/// The gallery has three layouts, of which the grid is the usual one.
pub proof fn the_grid_is_the_usual_layout(
    current: DeviceViewMode,
    toggles: Vec<ViewToggle>,
    saved: Option<DeviceViewMode>,
    mode: DeviceViewMode,
    k: int,
)
    requires
        call_ensures(device_view_switcher, (current,), toggles),
        call_ensures(gallery_mode, (saved,), mode),
    ensures
        toggles@.len() == 3,
        toggles@[0].mode == DeviceViewMode::Grid && toggles@[0].tooltip@ == "common.grid"@,
        toggles@[1].mode == DeviceViewMode::List && toggles@[1].tooltip@ == "common.list"@,
        toggles@[2].mode == DeviceViewMode::Carousel && toggles@[2].tooltip@ == "common.carousel"@,
        0 <= k < 3 ==> (toggles@[k].checked <==> toggles@[k].mode == current),
        saved matches Some(saved) ==> mode == saved,
        saved is None ==> mode == DeviceViewMode::Grid,
{
    if 0 <= k < 3 {
        assert(k == 0 || k == 1 || k == 2);
    }
}

/// The gallery is drawn in the saved layout, and the carousel rests on the
/// selected device.
pub proof fn the_gallery_is_drawn_as_saved(
    state: &AppState,
    facts: &Vec<DeviceFacts>,
    saved: Option<DeviceViewMode>,
    gallery: Gallery,
    mode: DeviceViewMode,
    order: &Vec<usize>,
    selected: usize,
    position: usize,
    k: int,
)
    requires
        facts@.len() == state.devices.records@.len(),
        call_ensures(device_gallery, (state, facts, saved), gallery),
        call_ensures(gallery_mode, (saved,), mode),
        call_ensures(ordered_device_indices, (&state.devices.records,), *order),
        state.devices.selected == Some(selected),
        call_ensures(carousel_position, (order, selected), position),
    ensures
        gallery is Grid <==> mode == DeviceViewMode::Grid,
        gallery is List <==> mode == DeviceViewMode::List,
        gallery is Carousel <==> mode == DeviceViewMode::Carousel,
        gallery matches Gallery::Carousel(_, rests) ==> rests == position,
        gallery matches Gallery::Grid(cards) ==> cards@.len() == state.devices.records@.len(),
        gallery matches Gallery::Grid(cards) ==> (0 <= k < cards@.len() ==> (cards@[k].active
            <==> order@[k] == selected)),
        gallery matches Gallery::List(rows) ==> rows@.len() == state.devices.records@.len(),
        gallery matches Gallery::List(rows) ==> (0 <= k < rows@.len() ==> (rows@[k].active
            <==> order@[k] == selected)),
{
    assert(state.devices.records@.len() == state.devices.records.len());
    if state.devices.records@.len() > 0 {
        each_device_is_shown_once(state.devices.records@, 0);
    }
}

} // verus!
