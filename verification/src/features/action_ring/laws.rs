//! What the Actions Ring editor shows, and what its switches do.

use crate::device::Capabilities;
use crate::features::action_ring::{
    action_ring_editor_state, current_device_supports_haptics, ring_preview, slot_button,
    toggle_label, ActionRingPanel, RingEditor, SlotIcon, SlotLabel, SlotView,
};
use crate::state::action_ring::{
    ActionRingConfig, ActionRingEntry, ActionRingLayout, ActionRingSlot, RingDefaults,
};
use crate::state::event::StateEvent;
use crate::state::{AppState, Save};
use vstd::prelude::*;

verus! {

/// A slot shows its action, and the picture that was picked for it or else the
/// action's; an empty one shows a plus.
pub proof fn a_slot_shows_its_action(
    slot: ActionRingSlot,
    entry: Option<ActionRingEntry>,
    selected: ActionRingSlot,
    view: SlotView,
)
    requires
        call_ensures(slot_button, (slot, entry, selected), view),
    ensures
        view.slot == slot,
        view.selected <==> slot == selected,
        entry is None <==> view.label == SlotLabel::Empty,
        entry is None <==> view.icon == SlotIcon::Plus,
        entry matches Some(entry) ==> view.label == SlotLabel::Action(entry.action),
        entry matches Some(entry) ==> (entry.custom_icon matches Some(icon) ==> view.icon
            == SlotIcon::Custom(icon)),
        entry matches Some(entry) ==> (entry.custom_icon is None ==> view.icon
            == SlotIcon::OfAction(entry.action)),
{
}

/// The preview shows the slots clockwise from the top, each as its button.
pub proof fn the_preview_goes_clockwise(
    layout: &ActionRingLayout,
    selected: ActionRingSlot,
    slots: Vec<SlotView>,
    all: Vec<ActionRingSlot>,
    view: SlotView,
    i: int,
)
    requires
        call_ensures(ring_preview, (layout, selected), slots),
        call_ensures(ActionRingSlot::all, (), all),
        0 <= i < 8,
        call_ensures(slot_button, (all@[i], layout@[i], selected), view),
    ensures
        slots@.len() == 8,
        slots@[i] == view,
{
    assert(slots@[i].slot.position() == i);
    assert(all@[i].position() == i);
}

/// A device has haptics as measured, or as its kind has them where nothing was.
pub proof fn haptics_are_as_measured(
    state: &AppState,
    presumed: Capabilities,
    supported: bool,
    i: usize,
)
    requires
        call_ensures(current_device_supports_haptics, (Some(state), presumed), supported),
    ensures
        state.devices.selected is None ==> !supported,
        state.devices.selected == Some(i) && i < state.devices.records@.len() ==> {
            let measured = state.devices.records@[i as int].capabilities;
            &&& measured matches Some(c) ==> supported == c.haptic_feedback
            &&& measured is None ==> supported == presumed.haptic_feedback
        },
{
}

/// Before a device has settings the initial ring is edited; later its own is, in
/// the layout of the open profile.
pub proof fn the_devices_ring_is_edited(
    state: &AppState,
    defaults: &RingDefaults,
    edited: (ActionRingConfig, ActionRingLayout),
    i: usize,
)
    requires
        call_ensures(action_ring_editor_state, (Some(state), defaults), edited),
        state.devices.selected == Some(i),
        i < state.devices.records@.len(),
    ensures
        ({
            let record = state.devices.records@[i as int];
            let own = record.persistent && state.config.devices@.contains_key(record.config_key@);
            let ring = state.config.devices@[record.config_key@].action_ring;
            &&& own ==> edited.0.enabled == ring.enabled && edited.0.haptics == ring.haptics
                && edited.0.default == ring.default && edited.0.per_app@ == ring.per_app@
            &&& own && state.editing_app is None ==> edited.1 == ring.default
            &&& own ==> (state.editing_app matches Some(app) ==> {
                &&& ring.per_app@.contains_key(app@) ==> edited.1 == ring.per_app@[app@]
                &&& !ring.per_app@.contains_key(app@) ==> edited.1 == ring.default
            })
            &&& !own ==> edited.0.enabled == state.ring_defaults.enabled && edited.0.haptics
                == state.ring_defaults.haptics && edited.1 == state.ring_defaults.layout
        }),
{
}

/// The editor shows the ring that is edited: its slots, the one being edited, and
/// its switches, that of the haptics only where the device has them.
pub proof fn the_editor_shows_the_ring(
    panel: &ActionRingPanel,
    state: &AppState,
    defaults: &RingDefaults,
    presumed: Capabilities,
    editor: RingEditor,
    edited: (ActionRingConfig, ActionRingLayout),
    slots: Vec<SlotView>,
    at: usize,
    supported: bool,
    k: int,
)
    requires
        call_ensures(ActionRingPanel::render, (panel, Some(state), defaults, presumed), editor),
        call_ensures(action_ring_editor_state, (Some(state), defaults), edited),
        call_ensures(ring_preview, (&edited.1, panel.selected_slot), slots),
        call_ensures(ActionRingSlot::index, (panel.selected_slot,), at),
        call_ensures(current_device_supports_haptics, (Some(state), presumed), supported),
    ensures
        editor.slots@.len() == slots@.len(),
        0 <= k < slots@.len() ==> editor.slots@[k] == slots@[k],
        editor.edited == edited.1@[at as int],
        editor.enabled == edited.0.enabled,
        supported ==> editor.haptics == Some(edited.0.haptics),
        !supported ==> editor.haptics is None,
{
    if 0 <= k < slots@.len() {
        assert(editor.slots@[k].slot.position() == k);
        assert(slots@[k].slot.position() == k);
    }
}

/// A click on a switch turns it the other way and tells of the selected device.
pub proof fn a_click_turns_the_switch(
    panel: &ActionRingPanel,
    state: &mut AppState,
    other: &mut AppState,
    shown: bool,
    first: (Option<Save>, Option<StateEvent>),
    second: (Option<Save>, Option<StateEvent>),
    i: usize,
)
    requires
        call_ensures(ActionRingPanel::toggle_enabled, (panel, state, shown), first),
        call_ensures(ActionRingPanel::toggle_haptics, (panel, other, shown), second),
        old(state).devices.selected == Some(i),
        old(other).devices.selected == Some(i),
        i < old(state).devices.records@.len(),
        i < old(other).devices.records@.len(),
        old(state).devices.records@[i as int].persistent,
        old(other).devices.records@[i as int].persistent,
    ensures
        ({
            let key = old(state).devices.records@[i as int].config_key@;
            &&& first.0 is Some
            &&& first.1 matches Some(StateEvent::BindingsChanged(told)) && told@ == key
            &&& final(state).config.devices@[key].action_ring.enabled == !shown
            &&& old(state).config.devices@.contains_key(key)
                ==> final(state).config.devices@[key].action_ring.haptics
                == old(state).config.devices@[key].action_ring.haptics
        }),
        ({
            let key = old(other).devices.records@[i as int].config_key@;
            &&& second.0 is Some
            &&& second.1 matches Some(StateEvent::BindingsChanged(told)) && told@ == key
            &&& final(other).config.devices@[key].action_ring.haptics == !shown
            &&& old(other).config.devices@.contains_key(key)
                ==> final(other).config.devices@[key].action_ring.enabled
                == old(other).config.devices@[key].action_ring.enabled
        }),
{
}

/// A switch says whether it is on.
pub proof fn a_switch_says_where_it_is(enabled: bool, label: &'static str)
    requires
        call_ensures(toggle_label, (enabled,), label),
    ensures
        enabled ==> label@ == "On"@,
        !enabled ==> label@ == "Off"@,
{
}

/// The editor opens at the top, and shows the slot that was clicked.
pub proof fn a_clicked_slot_is_edited(
    fresh: ActionRingPanel,
    panel: &mut ActionRingPanel,
    slot: ActionRingSlot,
)
    requires
        call_ensures(ActionRingPanel::new, (), fresh),
        call_ensures(ActionRingPanel::select_slot, (panel, slot), ()),
    ensures
        fresh.selected_slot == ActionRingSlot::Top,
        final(panel).selected_slot == slot,
{
}

} // verus!
