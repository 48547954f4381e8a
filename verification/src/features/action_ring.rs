//! The Actions Ring editor: the eight slots, the one being edited, and the
//! ring's switches.

pub mod laws;

use crate::device::Capabilities;
use crate::state::action_ring::{
    ActionRingConfig, ActionRingEntry, ActionRingLayout, ActionRingSlot, RingDefaults,
};
use crate::state::event::StateEvent;
use crate::state::{saves, AppState, Save};
use vstd::prelude::*;

verus! {

/// What a slot is called.
#[derive(Debug, Clone, Copy, PartialEq, Eq, Structural)]
pub enum SlotLabel {
    Empty,
    /// By the action of this number.
    Action(u32),
}

/// What picture a slot shows.
#[derive(Debug, Clone, Copy, PartialEq, Eq, Structural)]
pub enum SlotIcon {
    /// A plus, for an empty slot.
    Plus,
    /// The picture of this number, which was picked for the slot.
    Custom(u32),
    /// The picture of the action of this number.
    OfAction(u32),
}

/// One slot of the preview.
#[derive(Debug, Clone, Copy, PartialEq, Eq, Structural)]
pub struct SlotView {
    pub slot: ActionRingSlot,
    pub label: SlotLabel,
    pub icon: SlotIcon,
    pub selected: bool,
}

/// What the editor shows.
#[derive(Debug)]
pub struct RingEditor {
    /// The slots, clockwise from the top.
    pub slots: Vec<SlotView>,
    /// What the slot being edited does.
    pub edited: Option<ActionRingEntry>,
    pub enabled: bool,
    /// The haptics switch, where the device has haptics.
    pub haptics: Option<bool>,
}

/// The editor's own state: the slot being edited.
#[derive(Debug, Clone, Copy, PartialEq, Eq, Structural)]
pub struct ActionRingPanel {
    pub selected_slot: ActionRingSlot,
}

/// How a slot is shown.
pub open spec fn shown_slot(
    slot: ActionRingSlot,
    entry: Option<ActionRingEntry>,
    selected: ActionRingSlot,
) -> SlotView {
    SlotView {
        slot,
        label: match entry {
            Some(entry) => SlotLabel::Action(entry.action),
            None => SlotLabel::Empty,
        },
        icon: match entry {
            Some(entry) => match entry.custom_icon {
                Some(icon) => SlotIcon::Custom(icon),
                None => SlotIcon::OfAction(entry.action),
            },
            None => SlotIcon::Plus,
        },
        selected: selected == slot,
    }
}

/// How a slot is shown.
pub fn slot_button(
    slot: ActionRingSlot,
    entry: Option<ActionRingEntry>,
    selected: ActionRingSlot,
) -> (view: SlotView)
    ensures
        view == shown_slot(slot, entry, selected),
{
    SlotView {
        slot,
        label: match entry {
            Some(entry) => SlotLabel::Action(entry.action),
            None => SlotLabel::Empty,
        },
        icon: match entry {
            Some(entry) => match entry.custom_icon {
                Some(icon) => SlotIcon::Custom(icon),
                None => SlotIcon::OfAction(entry.action),
            },
            None => SlotIcon::Plus,
        },
        selected: selected == slot,
    }
}

/// Whether `slots` are the slots of `layout`, clockwise from the top.
pub open spec fn previews(
    slots: Seq<SlotView>,
    layout: ActionRingLayout,
    selected: ActionRingSlot,
) -> bool {
    &&& slots.len() == 8
    &&& forall|i: int|
        0 <= i < 8 ==> (#[trigger] slots[i]).slot.position() == i && slots[i] == shown_slot(
            slots[i].slot,
            layout@[i],
            selected,
        )
}

/// The slots of a layout, clockwise from the top.
pub fn ring_preview(layout: &ActionRingLayout, selected: ActionRingSlot) -> (slots: Vec<SlotView>)
    ensures
        previews(slots@, *layout, selected),
{
    let all = ActionRingSlot::all();
    let mut slots: Vec<SlotView> = Vec::new();
    let mut i: usize = 0;
    while i < 8
        invariant
            i <= 8,
            all@.len() == 8,
            forall|j: int| 0 <= j < 8 ==> (#[trigger] all@[j]).position() == j,
            slots@.len() == i,
            forall|j: int|
                0 <= j < i ==> (#[trigger] slots@[j]).slot.position() == j && slots@[j]
                    == shown_slot(slots@[j].slot, layout@[j], selected),
        decreases 8 - i,
    {
        assert(all@[i as int].position() == i);
        slots.push(slot_button(all[i], layout.slots[i], selected));
        i += 1;
    }
    slots
}

/// Whether a device has haptics: as measured, or as its kind has them where
/// nothing was.
pub open spec fn has_haptics(measured: Option<Capabilities>, presumed: Capabilities) -> bool {
    match measured {
        Some(capabilities) => capabilities.haptic_feedback,
        None => presumed.haptic_feedback,
    }
}

/// Whether the selected device has haptics, with `presumed` what its kind has.
pub fn current_device_supports_haptics(state: Option<&AppState>, presumed: Capabilities) -> (supported:
    bool)
    ensures
        supported == match state {
            Some(state) => match state.current() {
                Some(record) => has_haptics(record.capabilities, presumed),
                None => false,
            },
            None => false,
        },
{
    match state {
        Some(state) => match state.current_record() {
            Some(record) => match record.capabilities {
                Some(capabilities) => capabilities.haptic_feedback,
                None => presumed.haptic_feedback,
            },
            None => false,
        },
        None => false,
    }
}

/// Whether `ring` is the ring that is edited: the selected device's, or the
/// initial one before there is a state.
pub open spec fn is_edited_ring(
    ring: ActionRingConfig,
    state: Option<&AppState>,
    defaults: RingDefaults,
) -> bool {
    match state {
        Some(state) => state.has_ring(ring),
        None => ring.is_initial(defaults),
    }
}

/// The layout that is edited.
pub open spec fn edited_layout(state: Option<&AppState>, defaults: RingDefaults) -> ActionRingLayout {
    match state {
        Some(state) => state.layout_shown(),
        None => defaults.layout,
    }
}

/// The ring that is edited and its layout: the selected device's, or the
/// initial one before there is a state.
pub fn action_ring_editor_state(state: Option<&AppState>, defaults: &RingDefaults) -> (edited: (
    ActionRingConfig,
    ActionRingLayout,
))
    ensures
        is_edited_ring(edited.0, state, *defaults),
        edited.1 == edited_layout(state, *defaults),
{
    match state {
        Some(state) => (state.current_action_ring(), state.current_action_ring_layout()),
        None => {
            let ring = ActionRingConfig::new(defaults);
            let layout = ring.default;
            (ring, layout)
        },
    }
}

/// What a switch is labelled.
pub fn toggle_label(enabled: bool) -> (label: &'static str)
    ensures
        label@ == if enabled {
            "On"@
        } else {
            "Off"@
        },
{
    if enabled {
        "On"
    } else {
        "Off"
    }
}

impl ActionRingPanel {
    /// The editor, at the topmost slot.
    pub fn new() -> (panel: Self)
        ensures
            panel.selected_slot == ActionRingSlot::Top,
    {
        ActionRingPanel { selected_slot: ActionRingSlot::Top }
    }

    /// A slot was clicked.
    pub fn select_slot(&mut self, slot: ActionRingSlot)
        ensures
            final(self).selected_slot == slot,
    {
        self.selected_slot = slot;
    }

    /// What the editor shows.
    pub fn render(
        &self,
        state: Option<&AppState>,
        defaults: &RingDefaults,
        presumed: Capabilities,
    ) -> (editor: RingEditor)
        ensures
            previews(editor.slots@, edited_layout(state, *defaults), self.selected_slot),
            editor.edited == edited_layout(state, *defaults)@[self.selected_slot.position()],
            exists|ring: ActionRingConfig| #[trigger]
                is_edited_ring(ring, state, *defaults) && editor.enabled == ring.enabled
                    && editor.haptics == match state {
                    Some(state) => match state.current() {
                        Some(record) => if has_haptics(record.capabilities, presumed) {
                            Some(ring.haptics)
                        } else {
                            None
                        },
                        None => None,
                    },
                    None => None,
                },
    {
        let (ring, layout) = action_ring_editor_state(state, defaults);
        let supported = current_device_supports_haptics(state, presumed);
        let index: usize = self.selected_slot.index();
        RingEditor {
            slots: ring_preview(&layout, self.selected_slot),
            edited: layout.slots[index],
            enabled: ring.enabled,
            haptics: if supported {
                Some(ring.haptics)
            } else {
                None
            },
        }
    }

    /// The ring's switch was clicked while it was shown at `shown`: what has to
    /// be saved and what the panels are told.
    pub fn toggle_enabled(&self, state: &mut AppState, shown: bool) -> (done: (
        Option<Save>,
        Option<StateEvent>,
    ))
        ensures
            old(state).ring_switched(*final(state), Some(!shown), None),
            match old(state).current_settings_key() {
                Some(_) => saves(done.0, "Actions Ring enabled state"@, true),
                None => done.0 is None,
            },
            announced(done.1, old(state).current_key()),
    {
        let key = state.current_device_key();
        let save = state.commit_action_ring_enabled(!shown);
        (save, bindings_changed(key))
    }

    /// The haptics switch was clicked while it was shown at `shown`.
    pub fn toggle_haptics(&self, state: &mut AppState, shown: bool) -> (done: (
        Option<Save>,
        Option<StateEvent>,
    ))
        ensures
            old(state).ring_switched(*final(state), None, Some(!shown)),
            match old(state).current_settings_key() {
                Some(_) => saves(done.0, "Actions Ring haptics"@, true),
                None => done.0 is None,
            },
            announced(done.1, old(state).current_key()),
    {
        let key = state.current_device_key();
        let save = state.commit_action_ring_haptics(!shown);
        (save, bindings_changed(key))
    }
}

/// Whether `event` tells of a change to the bindings of the device with `key`,
/// if there is one.
pub open spec fn announced(event: Option<StateEvent>, key: Option<Seq<char>>) -> bool {
    match key {
        Some(key) => event matches Some(StateEvent::BindingsChanged(told)) && told@ == key,
        None => event is None,
    }
}

fn bindings_changed(key: Option<String>) -> (event: Option<StateEvent>)
    ensures
        announced(event, crate::text::owned_view(key)),
{
    match key {
        Some(key) => Some(StateEvent::BindingsChanged(key)),
        None => None,
    }
}

/// Exactly one slot of the preview is the one being edited.
pub proof fn one_slot_is_edited(
    slots: Seq<SlotView>,
    layout: ActionRingLayout,
    selected: ActionRingSlot,
    at: int,
)
    requires
        previews(slots, layout, selected),
        0 <= at < 8,
    ensures
        slots[at].selected == (at == selected.position()),
{
}

} // verus!
