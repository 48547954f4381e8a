//! Actions Ring settings and editor scope for the selected device.

use crate::state::{saves, AppState, Save};
use crate::state::config::{device_edited, DeviceConfig};
use crate::table::Table;
use crate::text::optional_view;
use vstd::prelude::*;

verus! {

/// A place on the ring, clockwise from the top.
#[derive(Debug, Clone, Copy, PartialEq, Eq, Structural)]
pub enum ActionRingSlot {
    Top,
    TopRight,
    Right,
    BottomRight,
    Bottom,
    BottomLeft,
    Left,
    TopLeft,
}

impl ActionRingSlot {
    /// The slot's position, clockwise from the top.
    pub open spec fn position(self) -> int {
        match self {
            Self::Top => 0,
            Self::TopRight => 1,
            Self::Right => 2,
            Self::BottomRight => 3,
            Self::Bottom => 4,
            Self::BottomLeft => 5,
            Self::Left => 6,
            Self::TopLeft => 7,
        }
    }

    /// The slot's position, clockwise from the top.
    pub fn index(self) -> (index: usize)
        ensures
            index == self.position(),
            index < 8,
    {
        match self {
            Self::Top => 0,
            Self::TopRight => 1,
            Self::Right => 2,
            Self::BottomRight => 3,
            Self::Bottom => 4,
            Self::BottomLeft => 5,
            Self::Left => 6,
            Self::TopLeft => 7,
        }
    }

    /// All slots, clockwise from the top.
    pub fn all() -> (slots: Vec<ActionRingSlot>)
        ensures
            slots@.len() == 8,
            forall|i: int| 0 <= i < 8 ==> (#[trigger] slots@[i]).position() == i,
    {
        vec![
            Self::Top,
            Self::TopRight,
            Self::Right,
            Self::BottomRight,
            Self::Bottom,
            Self::BottomLeft,
            Self::Left,
            Self::TopLeft,
        ]
    }
}

/// What a slot does, by its number in the action catalog, and the picture it
/// shows if not the action's own, by its number in the icon catalog.
#[derive(Debug, Clone, Copy, PartialEq, Eq, Structural)]
pub struct ActionRingEntry {
    pub action: u32,
    pub custom_icon: Option<u32>,
}

/// What the eight slots do.
#[derive(Debug, Clone, Copy)]
pub struct ActionRingLayout {
    pub slots: [Option<ActionRingEntry>; 8],
}

impl View for ActionRingLayout {
    type V = Seq<Option<ActionRingEntry>>;

    open spec fn view(&self) -> Seq<Option<ActionRingEntry>> {
        self.slots@
    }
}

/// The Actions Ring that a device has until its first edit.
#[derive(Debug, Clone, Copy)]
pub struct RingDefaults {
    pub enabled: bool,
    pub haptics: bool,
    pub layout: ActionRingLayout,
}

/// A device's Actions Ring.
#[derive(Debug)]
pub struct ActionRingConfig {
    pub enabled: bool,
    pub haptics: bool,
    pub default: ActionRingLayout,
    /// The layouts of applications that have one of their own.
    pub per_app: Table<ActionRingLayout>,
}

impl ActionRingConfig {
    /// Whether the ring is the one that a device has until its first edit.
    pub open spec fn is_initial(self, ring: RingDefaults) -> bool {
        &&& self.enabled == ring.enabled
        &&& self.haptics == ring.haptics
        &&& self.default == ring.layout
        &&& self.per_app@ == Map::<Seq<char>, ActionRingLayout>::empty()
    }

    /// Whether `other` is the same ring.
    pub open spec fn same(self, other: ActionRingConfig) -> bool {
        &&& other.enabled == self.enabled
        &&& other.haptics == self.haptics
        &&& other.default == self.default
        &&& other.per_app@ == self.per_app@
    }

    /// A copy of the ring.
    pub fn duplicate(&self) -> (copy: Self)
        ensures
            self.same(copy),
    {
        ActionRingConfig {
            enabled: self.enabled,
            haptics: self.haptics,
            default: self.default,
            per_app: self.per_app.duplicate(),
        }
    }

    /// The ring that a device has until its first edit.
    pub fn new(ring: &RingDefaults) -> (config: Self)
        ensures
            config.is_initial(*ring),
    {
        ActionRingConfig {
            enabled: ring.enabled,
            haptics: ring.haptics,
            default: ring.layout,
            per_app: Table::new(),
        }
    }

    /// The layout of an application: its own, or the default one.
    pub open spec fn layout_for(self, app: Option<Seq<char>>) -> ActionRingLayout {
        match app {
            Some(app) => if self.per_app@.contains_key(app) {
                self.per_app@[app]
            } else {
                self.default
            },
            None => self.default,
        }
    }

    /// The layout of an application: its own, or the default one.
    pub fn effective_layout(&self, app: Option<&str>) -> (layout: ActionRingLayout)
        ensures
            layout == self.layout_for(optional_view(app)),
    {
        match app {
            Some(app) => match self.per_app.get(app) {
                Some(layout) => *layout,
                None => self.default,
            },
            None => self.default,
        }
    }
}

/// A change of one slot.
#[derive(Debug, Clone, Copy, PartialEq, Eq, Structural)]
pub enum SlotEdit {
    /// Let the slot do the action of this number, with the action's own
    /// picture, or empty it.
    Action(Option<u32>),
    /// Give a filled slot a picture of its own, or the action's again.
    Icon(Option<u32>),
}

impl SlotEdit {
    /// What a slot holds after the change.
    pub open spec fn applied(self, entry: Option<ActionRingEntry>) -> Option<ActionRingEntry> {
        match self {
            SlotEdit::Action(action) => match action {
                Some(action) => Some(ActionRingEntry { action, custom_icon: None }),
                None => None,
            },
            SlotEdit::Icon(icon) => match entry {
                Some(entry) => Some(ActionRingEntry { action: entry.action, custom_icon: icon }),
                None => None,
            },
        }
    }

    fn apply(self, entry: Option<ActionRingEntry>) -> (edited: Option<ActionRingEntry>)
        ensures
            edited == self.applied(entry),
    {
        match self {
            SlotEdit::Action(action) => match action {
                Some(action) => Some(ActionRingEntry { action, custom_icon: None }),
                None => None,
            },
            SlotEdit::Icon(icon) => match entry {
                Some(entry) => Some(ActionRingEntry { action: entry.action, custom_icon: icon }),
                None => None,
            },
        }
    }
}

/// Whether `after` is `before` with one slot changed in the layout of `app`'s
/// profile. An application without a layout of its own starts from the default
/// one; nothing else changes.
pub open spec fn slot_edited(
    before: ActionRingConfig,
    after: ActionRingConfig,
    app: Option<Seq<char>>,
    slot: ActionRingSlot,
    edit: SlotEdit,
) -> bool {
    let shown = before.layout_for(app);
    let edited = after.layout_for(app);
    &&& after.enabled == before.enabled
    &&& after.haptics == before.haptics
    &&& edited@ == shown@.update(slot.position(), edit.applied(shown@[slot.position()]))
    &&& match app {
        Some(app) => {
            &&& after.default == before.default
            &&& after.per_app@ == before.per_app@.insert(app, edited)
        },
        None => after.per_app == before.per_app,
    }
}

impl AppState {
    /// Whether `ring` is the selected device's Actions Ring, which is the
    /// initial one for a device without settings, and for no device.
    pub open spec fn has_ring(self, ring: ActionRingConfig) -> bool {
        match self.current_settings_key() {
            Some(key) => if self.config.devices@.contains_key(key) {
                self.config.devices@[key].action_ring.same(ring)
            } else {
                ring.is_initial(self.ring_defaults)
            },
            None => ring.is_initial(self.ring_defaults),
        }
    }

    /// The layout that the editor shows: the open profile's in the selected
    /// device's ring.
    pub open spec fn layout_shown(self) -> ActionRingLayout {
        match self.current_settings_key() {
            Some(key) => if self.config.devices@.contains_key(key) {
                self.config.devices@[key].action_ring.layout_for(self.scope())
            } else {
                self.ring_defaults.layout
            },
            None => self.ring_defaults.layout,
        }
    }

    /// The selected device's Actions Ring, or the initial one where it has no
    /// settings yet.
    pub fn current_action_ring(&self) -> (ring: ActionRingConfig)
        ensures
            self.has_ring(ring),
            ring.layout_for(self.scope()) == self.layout_shown(),
    {
        if let Some(record) = self.current_record() {
            if let Some(key) = record.persistent_config_key() {
                if let Some(device) = self.config.devices.get(key) {
                    return device.action_ring.duplicate();
                }
            }
        }
        ActionRingConfig::new(&self.ring_defaults)
    }

    /// The layout that the editor shows. An application without a layout of
    /// its own inherits the default one until its first edit.
    pub fn current_action_ring_layout(&self) -> (layout: ActionRingLayout)
        ensures
            layout == self.layout_shown(),
    {
        let ring = self.current_action_ring();
        ring.effective_layout(self.editing_app())
    }

    /// Replaces or empties one slot of the open layout.
    pub fn commit_action_ring_slot(
        &mut self,
        slot: ActionRingSlot,
        action: Option<u32>,
    ) -> (save: Option<Save>)
        ensures
            old(self).slot_committed(*final(self), slot, SlotEdit::Action(action)),
            match old(self).current_settings_key() {
                Some(_) => saves(save, "Actions Ring slot"@, true),
                None => save is None,
            },
    {
        if self.edit_action_ring_layout(slot, SlotEdit::Action(action)) {
            Some(Save { what: "Actions Ring slot", reload: true })
        } else {
            None
        }
    }

    /// Gives one slot of the open layout a picture of its own, or the action's
    /// again.
    pub fn commit_action_ring_icon(
        &mut self,
        slot: ActionRingSlot,
        icon: Option<u32>,
    ) -> (save: Option<Save>)
        ensures
            old(self).slot_committed(*final(self), slot, SlotEdit::Icon(icon)),
            match old(self).current_settings_key() {
                Some(_) => saves(save, "Actions Ring icon"@, true),
                None => save is None,
            },
    {
        if self.edit_action_ring_layout(slot, SlotEdit::Icon(icon)) {
            Some(Save { what: "Actions Ring icon", reload: true })
        } else {
            None
        }
    }

    /// Whether `after` is this state with one slot of the open layout changed.
    /// Without a physical device nothing changes.
    pub open spec fn slot_committed(
        self,
        after: AppState,
        slot: ActionRingSlot,
        edit: SlotEdit,
    ) -> bool {
        match self.current_settings_key() {
            Some(key) => {
                &&& after == (AppState { config: after.config, ..self })
                &&& device_edited(
                    self.config,
                    after.config,
                    key,
                    self.ring_defaults,
                    |before: DeviceConfig, device: DeviceConfig|
                        device == (DeviceConfig { action_ring: device.action_ring, ..before })
                            && slot_edited(
                            before.action_ring,
                            device.action_ring,
                            self.scope(),
                            slot,
                            edit,
                        ),
                )
            },
            None => after == self,
        }
    }

    fn edit_action_ring_layout(&mut self, slot: ActionRingSlot, edit: SlotEdit) -> (edited: bool)
        ensures
            old(self).slot_committed(*final(self), slot, edit),
            edited == (old(self).current_settings_key() is Some),
    {
        let key = match self.current_persistent_key() {
            Some(key) => key,
            None => {
                return false;
            },
        };
        let mut device = self.config.take_device(key.as_str(), &self.ring_defaults);
        let ghost before = device;
        let mut layout = device.action_ring.effective_layout(self.editing_app());
        let index: usize = slot.index();
        layout.slots[index] = edit.apply(layout.slots[index]);
        match self.editing_app() {
            Some(app) => {
                device.action_ring.per_app.insert(app, layout);
            },
            None => {
                device.action_ring.default = layout;
            },
        }
        self.config.put_device(key.as_str(), device);
        proof {
            assert(old(self).config.has_or_initial(key@, self.ring_defaults, before));
            assert(slot_edited(
                before.action_ring,
                device.action_ring,
                self.scope(),
                slot,
                edit,
            ));
            assert(self.config.devices@.remove(key@) =~= old(self).config.devices@.remove(key@));
        }
        true
    }

    /// Whether `after` is this state with the ring's switches at the given
    /// positions. Without a physical device nothing changes.
    pub open spec fn ring_switched(
        self,
        after: AppState,
        enabled: Option<bool>,
        haptics: Option<bool>,
    ) -> bool {
        match self.current_settings_key() {
            Some(key) => {
                &&& after == (AppState { config: after.config, ..self })
                &&& device_edited(
                    self.config,
                    after.config,
                    key,
                    self.ring_defaults,
                    |before: DeviceConfig, device: DeviceConfig|
                        device == (DeviceConfig {
                            action_ring: ActionRingConfig {
                                enabled: match enabled {
                                    Some(enabled) => enabled,
                                    None => before.action_ring.enabled,
                                },
                                haptics: match haptics {
                                    Some(haptics) => haptics,
                                    None => before.action_ring.haptics,
                                },
                                ..before.action_ring
                            },
                            ..before
                        }),
                )
            },
            None => after == self,
        }
    }

    fn switch_action_ring(
        &mut self,
        enabled: Option<bool>,
        haptics: Option<bool>,
    ) -> (switched: bool)
        ensures
            old(self).ring_switched(*final(self), enabled, haptics),
            switched == (old(self).current_settings_key() is Some),
    {
        let key = match self.current_persistent_key() {
            Some(key) => key,
            None => {
                return false;
            },
        };
        let mut device = self.config.take_device(key.as_str(), &self.ring_defaults);
        let ghost before = device;
        if let Some(enabled) = enabled {
            device.action_ring.enabled = enabled;
        }
        if let Some(haptics) = haptics {
            device.action_ring.haptics = haptics;
        }
        self.config.put_device(key.as_str(), device);
        proof {
            assert(old(self).config.has_or_initial(key@, self.ring_defaults, before));
            assert(self.config.devices@.remove(key@) =~= old(self).config.devices@.remove(key@));
        }
        true
    }

    /// Enables or disables the selected device's Actions Ring.
    pub fn commit_action_ring_enabled(&mut self, enabled: bool) -> (save: Option<Save>)
        ensures
            old(self).ring_switched(*final(self), Some(enabled), None),
            match old(self).current_settings_key() {
                Some(_) => saves(save, "Actions Ring enabled state"@, true),
                None => save is None,
            },
    {
        if self.switch_action_ring(Some(enabled), None) {
            Some(Save { what: "Actions Ring enabled state", reload: true })
        } else {
            None
        }
    }

    /// Enables or disables hover and activation haptics of the ring.
    pub fn commit_action_ring_haptics(&mut self, enabled: bool) -> (save: Option<Save>)
        ensures
            old(self).ring_switched(*final(self), None, Some(enabled)),
            match old(self).current_settings_key() {
                Some(_) => saves(save, "Actions Ring haptics"@, true),
                None => save is None,
            },
    {
        if self.switch_action_ring(None, Some(enabled)) {
            Some(Save { what: "Actions Ring haptics", reload: true })
        } else {
            None
        }
    }
}

/// A slot that was committed is shown as committed, and the other slots as
/// they were; the ring's switches stay where they were.
pub proof fn a_committed_slot_is_shown(
    before: AppState,
    after: AppState,
    ring_before: ActionRingConfig,
    ring_after: ActionRingConfig,
    slot: ActionRingSlot,
    edit: SlotEdit,
)
    requires
        before.current_settings_key() is Some,
        before.slot_committed(after, slot, edit),
        before.has_ring(ring_before),
        after.has_ring(ring_after),
    ensures
        after.layout_shown()@ == before.layout_shown()@.update(
            slot.position(),
            edit.applied(before.layout_shown()@[slot.position()]),
        ),
        ring_after.enabled == ring_before.enabled,
        ring_after.haptics == ring_before.haptics,
{
}

/// A switch of the ring that was committed is shown as committed, and the
/// layouts and the other switch as they were.
pub proof fn a_committed_switch_is_shown(
    before: AppState,
    after: AppState,
    ring_before: ActionRingConfig,
    ring_after: ActionRingConfig,
    enabled: Option<bool>,
    haptics: Option<bool>,
)
    requires
        before.current_settings_key() is Some,
        before.ring_switched(after, enabled, haptics),
        before.has_ring(ring_before),
        after.has_ring(ring_after),
    ensures
        ring_after.enabled == match enabled {
            Some(enabled) => enabled,
            None => ring_before.enabled,
        },
        ring_after.haptics == match haptics {
            Some(haptics) => haptics,
            None => ring_before.haptics,
        },
        ring_after.default == ring_before.default,
        ring_after.per_app@ == ring_before.per_app@,
        after.layout_shown() == before.layout_shown(),
{
}

} // verus!
