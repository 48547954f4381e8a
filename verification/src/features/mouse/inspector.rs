//! The inspector beside the mouse: what it shows of the selected control.
//!
//! Texts are message keys; `%{app}` and `%{count}` in them are filled in when
//! they are drawn.

use crate::binding::{
    Action, ActionView, ButtonId, ButtonMap, GestureDirection, GestureMap,
};
use crate::features::mouse::hotspots::MouseControlId;
use crate::features::mouse::thumbwheel::{all_presets, ThumbwheelPreset};
use vstd::prelude::*;

verus! {

/// What the inspector is drawn from.
#[derive(Debug, Clone, Copy)]
pub struct BindingInspectorData<'a> {
    pub selected: Option<MouseControlId>,
    pub gesture_direction: Option<GestureDirection>,
    pub action_picker_open: bool,
    pub bindings: &'a ButtonMap<Action>,
    pub gesture_maps: &'a ButtonMap<GestureMap>,
    /// The application whose profile is open.
    pub editing_app: Option<&'a str>,
    /// The buttons that this profile changes.
    pub overridden: Option<&'a ButtonMap<Action>>,
    /// What buttons do that are not bound; one that is not listed does nothing.
    pub defaults: &'a ButtonMap<Action>,
    /// Whether the selected button can make gestures.
    pub gestures_possible: bool,
}

/// Where a control's action comes from.
#[derive(Debug, Clone, Copy, PartialEq, Eq, Structural)]
pub enum BindingStatus {
    OverriddenIn,
    Inherited,
    DeviceDefault,
    Customized,
    DefaultProfile,
    FiveDirections,
}

impl BindingStatus {
    /// The message of a status.
    pub open spec fn text(self) -> Seq<char> {
        match self {
            BindingStatus::OverriddenIn => "Overridden in %{app}"@,
            BindingStatus::Inherited => "Inherited from Default"@,
            BindingStatus::DeviceDefault => "Device default"@,
            BindingStatus::Customized => "Customized"@,
            BindingStatus::DefaultProfile => "Default profile"@,
            BindingStatus::FiveDirections => "5 directions"@,
        }
    }

    /// The message of a status.
    pub fn message(self) -> (message: &'static str)
        ensures
            message@ == self.text(),
    {
        match self {
            BindingStatus::OverriddenIn => "Overridden in %{app}",
            BindingStatus::Inherited => "Inherited from Default",
            BindingStatus::DeviceDefault => "Device default",
            BindingStatus::Customized => "Customized",
            BindingStatus::DefaultProfile => "Default profile",
            BindingStatus::FiveDirections => "5 directions",
        }
    }
}

/// What the inspector says while nothing is selected.
pub open spec fn empty_text(app: bool, override_count: usize) -> Seq<char> {
    if !app {
        "Select a button on the device to change what it does."@
    } else if override_count == 0 {
        "No overrides yet. Select a button to customize for %{app}."@
    } else if override_count == 1 {
        "%{app} overrides 1 button. Others inherit Default."@
    } else {
        "%{app} overrides %{count} buttons. Others inherit Default."@
    }
}

/// What the inspector says while nothing is selected.
pub fn empty_inspector(app: Option<&str>, override_count: usize) -> (message: &'static str)
    ensures
        message@ == empty_text(app is Some, override_count),
{
    match (app, override_count) {
        (Some(_), 0) => "No overrides yet. Select a button to customize for %{app}.",
        (Some(_), 1) => "%{app} overrides 1 button. Others inherit Default.",
        (Some(_), _) => "%{app} overrides %{count} buttons. Others inherit Default.",
        (None, _) => "Select a button on the device to change what it does.",
    }
}

/// What a button does that is bound as in `bindings`, else as in `defaults`.
pub open spec fn effective(
    bindings: Map<ButtonId, Action>,
    defaults: Map<ButtonId, Action>,
    button: ButtonId,
) -> ActionView {
    if bindings.contains_key(button) {
        bindings[button]@
    } else {
        default_view(defaults, button)
    }
}

/// What a button does that is not bound.
pub open spec fn default_view(defaults: Map<ButtonId, Action>, button: ButtonId) -> ActionView {
    if defaults.contains_key(button) {
        defaults[button]@
    } else {
        Action::Nothing@
    }
}

fn default_binding(defaults: &ButtonMap<Action>, button: ButtonId) -> (action: Action)
    ensures
        action@ == default_view(defaults@, button),
{
    match defaults.get(button) {
        Some(action) => action.clone(),
        None => Action::Nothing,
    }
}

fn effective_binding(
    bindings: &ButtonMap<Action>,
    defaults: &ButtonMap<Action>,
    button: ButtonId,
) -> (action: Action)
    ensures
        action@ == effective(bindings@, defaults@, button),
{
    match bindings.get(button) {
        Some(action) => action.clone(),
        None => default_binding(defaults, button),
    }
}

/// What a direction of a gesture does: what it is bound to; else a plain click
/// does what the button does by default, and the others do nothing.
pub open spec fn gesture_view(
    gesture_map: GestureMap,
    defaults: Map<ButtonId, Action>,
    button: ButtonId,
    direction: GestureDirection,
) -> ActionView {
    match gesture_map.bound(direction) {
        Some(action) => action@,
        None => if direction == GestureDirection::Click {
            default_view(defaults, button)
        } else {
            Action::Nothing@
        },
    }
}

/// What a direction of a gesture does.
pub fn gesture_action(
    gesture_map: &GestureMap,
    defaults: &ButtonMap<Action>,
    button: ButtonId,
    direction: GestureDirection,
) -> (action: Action)
    ensures
        action@ == gesture_view(*gesture_map, defaults@, button, direction),
{
    match gesture_map.get(direction) {
        Some(action) => action.clone(),
        None => if direction == GestureDirection::Click {
            default_binding(defaults, button)
        } else {
            Action::Nothing
        },
    }
}

/// One row of the list of directions.
#[derive(Debug)]
pub struct DirectionRow {
    pub direction: GestureDirection,
    pub action: Action,
    pub selected: bool,
}

/// All directions in order.
pub open spec fn all_directions() -> Seq<GestureDirection> {
    seq![
        GestureDirection::Up,
        GestureDirection::Down,
        GestureDirection::Left,
        GestureDirection::Right,
        GestureDirection::Click,
    ]
}

/// Whether `rows` are the rows of the directions, with `active` selected.
pub open spec fn lists_directions(
    rows: Seq<DirectionRow>,
    gesture_map: GestureMap,
    defaults: Map<ButtonId, Action>,
    button: ButtonId,
    active: GestureDirection,
) -> bool {
    &&& rows.len() == all_directions().len()
    &&& forall|i: int|
        #![trigger rows[i]]
        0 <= i < rows.len() ==> rows[i].direction == all_directions()[i] && rows[i].action@
            == gesture_view(gesture_map, defaults, button, rows[i].direction) && rows[i].selected
            == (rows[i].direction == active)
}

/// The rows of the directions.
pub fn gesture_directions(
    active: GestureDirection,
    gesture_map: &GestureMap,
    defaults: &ButtonMap<Action>,
    button: ButtonId,
) -> (rows: Vec<DirectionRow>)
    ensures
        lists_directions(rows@, *gesture_map, defaults@, button, active),
{
    let directions = GestureDirection::all();
    let mut rows: Vec<DirectionRow> = Vec::new();
    let mut i: usize = 0;
    while i < 5
        invariant
            i <= 5,
            directions@ == all_directions(),
            rows@.len() == i,
            forall|j: int|
                #![trigger rows@[j]]
                0 <= j < i ==> rows@[j].direction == all_directions()[j] && rows@[j].action@
                    == gesture_view(*gesture_map, defaults@, button, rows@[j].direction)
                    && rows@[j].selected == (rows@[j].direction == active),
        decreases 5 - i,
    {
        let direction = directions[i];
        let action = gesture_action(gesture_map, defaults, button, direction);
        rows.push(DirectionRow { direction, action, selected: direction == active });
        i += 1;
    }
    rows
}

/// What the inspector shows of a button. `library` says whether the library of
/// actions to pick from is shown.
#[derive(Debug)]
pub enum ButtonInspector {
    /// The button makes gestures, of which one direction is open.
    Gestures {
        library: bool,
        direction: GestureDirection,
        rows: Vec<DirectionRow>,
        current: Action,
    },
    /// The default profile lets the button make gestures, and the open profile
    /// does not change that.
    InheritedGestures { library: bool },
    /// The button does one thing.
    Single {
        library: bool,
        action: Action,
        status: BindingStatus,
        /// Whether it offers to go back to the default profile.
        use_default: bool,
        /// Whether it offers gestures.
        use_gestures: bool,
    },
}

impl ButtonInspector {
    /// Where what the button does comes from.
    pub open spec fn origin(self) -> BindingStatus {
        match self {
            ButtonInspector::Gestures { .. } => BindingStatus::FiveDirections,
            ButtonInspector::InheritedGestures { .. } => BindingStatus::Inherited,
            ButtonInspector::Single { status, .. } => status,
        }
    }

    /// Where what the button does comes from, as the heading says it.
    pub fn heading(&self) -> (status: BindingStatus)
        ensures
            status == self.origin(),
    {
        match self {
            ButtonInspector::Gestures { .. } => BindingStatus::FiveDirections,
            ButtonInspector::InheritedGestures { .. } => BindingStatus::Inherited,
            ButtonInspector::Single { status, .. } => *status,
        }
    }
}

/// Whether the open profile changes `button`.
pub open spec fn overrides(data: BindingInspectorData<'_>, button: ButtonId) -> bool {
    data.overridden matches Some(overridden) && overridden@.contains_key(button)
}

/// Where a single action comes from.
pub open spec fn single_status(data: BindingInspectorData<'_>, button: ButtonId) -> BindingStatus {
    if data.editing_app is Some {
        if overrides(data, button) {
            BindingStatus::OverriddenIn
        } else {
            BindingStatus::Inherited
        }
    } else if effective(data.bindings@, data.defaults@, button) == default_view(
        data.defaults@,
        button,
    ) {
        BindingStatus::DeviceDefault
    } else {
        BindingStatus::Customized
    }
}

/// The direction that is open.
pub open spec fn open_direction(data: BindingInspectorData<'_>) -> GestureDirection {
    match data.gesture_direction {
        Some(direction) => direction,
        None => GestureDirection::Click,
    }
}

/// Whether `shown` is what the inspector shows of `button`.
pub open spec fn inspects(
    shown: ButtonInspector,
    data: BindingInspectorData<'_>,
    button: ButtonId,
) -> bool {
    let gestures = data.gesture_maps@.contains_key(button);
    if data.editing_app is None && gestures {
        shown matches ButtonInspector::Gestures { library, direction, rows, current } && library
            == data.action_picker_open && direction == open_direction(data) && lists_directions(
            rows@,
            data.gesture_maps@[button],
            data.defaults@,
            button,
            direction,
        ) && current@ == gesture_view(
            data.gesture_maps@[button],
            data.defaults@,
            button,
            direction,
        )
    } else if data.editing_app is Some && gestures && !overrides(data, button) {
        shown == (ButtonInspector::InheritedGestures { library: data.action_picker_open })
    } else {
        shown matches ButtonInspector::Single { library, action, status, use_default, use_gestures }
            && library == data.action_picker_open && action@ == effective(data.bindings@, data.defaults@, button) && status
            == single_status(data, button) && use_default == overrides(data, button)
            && use_gestures == (data.editing_app is None && data.gestures_possible)
    }
}

/// What the inspector shows of a button.
pub fn button_inspector(button: ButtonId, data: &BindingInspectorData<'_>) -> (shown:
    ButtonInspector)
    ensures
        inspects(shown, *data, button),
{
    let overridden = match data.overridden {
        Some(overridden) => overridden.contains_key(button),
        None => false,
    };
    match (data.gesture_maps.get(button), data.editing_app) {
        (Some(gesture_map), None) => {
            let direction = match data.gesture_direction {
                Some(direction) => direction,
                None => GestureDirection::Click,
            };
            return ButtonInspector::Gestures {
                library: data.action_picker_open,
                direction,
                rows: gesture_directions(direction, gesture_map, data.defaults, button),
                current: gesture_action(gesture_map, data.defaults, button, direction),
            };
        },
        (Some(_), Some(_)) => {
            if !overridden {
                return ButtonInspector::InheritedGestures { library: data.action_picker_open };
            }
        },
        _ => {},
    }
    let action = effective_binding(data.bindings, data.defaults, button);
    let status = if data.editing_app.is_some() {
        if overridden {
            BindingStatus::OverriddenIn
        } else {
            BindingStatus::Inherited
        }
    } else if action.same(&default_binding(data.defaults, button)) {
        BindingStatus::DeviceDefault
    } else {
        BindingStatus::Customized
    };
    ButtonInspector::Single {
        library: data.action_picker_open,
        action,
        status,
        use_default: overridden,
        use_gestures: data.editing_app.is_none() && data.gestures_possible,
    }
}

/// What the inspector shows of the thumb wheel.
#[derive(Debug)]
pub struct ThumbwheelInspector {
    /// The preset that the two directions are bound to, if it is one.
    pub current: Option<ThumbwheelPreset>,
    pub status: BindingStatus,
    pub label: &'static str,
    pub icon: &'static str,
    /// Whether it offers to go back to the default profile.
    pub use_default: bool,
    /// The presets to pick from, while they are shown.
    pub presets: Option<Vec<PresetRow>>,
}

/// A preset to pick.
#[derive(Debug, Clone, Copy, PartialEq, Eq, Structural)]
pub struct PresetRow {
    pub preset: ThumbwheelPreset,
    pub selected: bool,
}

/// Whether `rows` are the presets in order, with the current one selected.
pub open spec fn lists_presets(rows: Seq<PresetRow>, current: Option<ThumbwheelPreset>) -> bool {
    &&& rows.len() == all_presets().len()
    &&& forall|i: int|
        #![trigger rows[i]]
        0 <= i < rows.len() ==> rows[i] == (PresetRow {
            preset: all_presets()[i],
            selected: current == Some(all_presets()[i]),
        })
}

fn preset_rows(current: Option<ThumbwheelPreset>) -> (rows: Vec<PresetRow>)
    ensures
        lists_presets(rows@, current),
{
    let presets = ThumbwheelPreset::all();
    let mut rows: Vec<PresetRow> = Vec::new();
    let mut i: usize = 0;
    while i < 13
        invariant
            i <= 13,
            presets@ == all_presets(),
            presets@.len() == 13,
            rows@.len() == i,
            forall|j: int|
                #![trigger rows@[j]]
                0 <= j < i ==> rows@[j] == (PresetRow {
                    preset: all_presets()[j],
                    selected: current == Some(all_presets()[j]),
                }),
        decreases 13 - i,
    {
        let preset = presets[i];
        let selected = match current {
            Some(current) => current == preset,
            None => false,
        };
        rows.push(PresetRow { preset, selected });
        i += 1;
    }
    rows
}

/// Whether the open profile changes the thumb wheel.
pub open spec fn overrides_thumbwheel(data: BindingInspectorData<'_>) -> bool {
    overrides(data, ButtonId::ThumbwheelScrollDown) || overrides(data, ButtonId::ThumbwheelScrollUp)
}

/// Whether `shown` is what the inspector shows of the thumb wheel.
pub open spec fn inspects_thumbwheel(
    shown: ThumbwheelInspector,
    data: BindingInspectorData<'_>,
) -> bool {
    let backward = effective(data.bindings@, data.defaults@, ButtonId::ThumbwheelScrollDown);
    let forward = effective(data.bindings@, data.defaults@, ButtonId::ThumbwheelScrollUp);
    &&& match shown.current {
        Some(preset) => preset.is_pair(backward, forward) && shown.label@ == preset.name()
            && shown.icon@ == preset.picture(),
        None => shown.label@ == "Custom"@ && shown.icon@ == "action-icons/chevrons-right.svg"@
            && forall|preset: ThumbwheelPreset| #[trigger]
            preset.backward()@ != backward || preset.forward()@ != forward,
    }
    &&& shown.status == if data.editing_app is None {
        BindingStatus::DefaultProfile
    } else if overrides_thumbwheel(data) {
        BindingStatus::OverriddenIn
    } else {
        BindingStatus::Inherited
    }
    &&& shown.use_default == overrides_thumbwheel(data)
    &&& match shown.presets {
        Some(rows) => data.action_picker_open && lists_presets(rows@, shown.current),
        None => !data.action_picker_open,
    }
}

/// What the inspector shows of the thumb wheel.
pub fn thumbwheel_inspector(data: &BindingInspectorData<'_>) -> (shown: ThumbwheelInspector)
    ensures
        inspects_thumbwheel(shown, *data),
{
    let backward = effective_binding(
        data.bindings,
        data.defaults,
        ButtonId::ThumbwheelScrollDown,
    );
    let forward = effective_binding(data.bindings, data.defaults, ButtonId::ThumbwheelScrollUp);
    let current = ThumbwheelPreset::recognize(&backward, &forward);
    let overridden = match data.overridden {
        Some(overridden) => overridden.contains_key(ButtonId::ThumbwheelScrollDown)
            || overridden.contains_key(ButtonId::ThumbwheelScrollUp),
        None => false,
    };
    let status = match (data.editing_app, overridden) {
        (Some(_), true) => BindingStatus::OverriddenIn,
        (Some(_), false) => BindingStatus::Inherited,
        (None, _) => BindingStatus::DefaultProfile,
    };
    let (label, icon): (&'static str, &'static str) = match current {
        Some(preset) => (preset.label(), preset.icon()),
        None => ("Custom", "action-icons/chevrons-right.svg"),
    };
    let presets = if data.action_picker_open {
        Some(preset_rows(current))
    } else {
        None
    };
    ThumbwheelInspector { current, status, label, icon, use_default: overridden, presets }
}

/// What the inspector shows.
#[derive(Debug)]
pub enum Inspector {
    Empty(&'static str),
    Thumbwheel(ThumbwheelInspector),
    Button(ButtonInspector),
}

/// What the inspector shows of the selected control.
pub fn binding_inspector(data: &BindingInspectorData<'_>) -> (shown: Inspector)
    ensures
        match data.selected {
            None => shown matches Inspector::Empty(message) && message@ == empty_text(
                data.editing_app is Some,
                match data.overridden {
                    Some(overridden) => overridden@.dom().len() as usize,
                    None => 0,
                },
            ),
            Some(MouseControlId::ThumbwheelRotation) => shown matches Inspector::Thumbwheel(wheel)
                && inspects_thumbwheel(wheel, *data),
            Some(MouseControlId::Button(button)) => shown matches Inspector::Button(inner)
                && inspects(inner, *data, button),
        },
{
    match data.selected {
        None => {
            let count: usize = match data.overridden {
                Some(overridden) => overridden.len(),
                None => 0,
            };
            Inspector::Empty(empty_inspector(data.editing_app, count))
        },
        Some(MouseControlId::ThumbwheelRotation) => Inspector::Thumbwheel(
            thumbwheel_inspector(data),
        ),
        Some(MouseControlId::Button(button)) => Inspector::Button(button_inspector(button, data)),
    }
}

/// What a pick in the inspector changes.
#[derive(Debug, Clone, Copy, PartialEq, Eq, Structural)]
pub enum PickTarget {
    /// The button's own action.
    Binding(ButtonId),
    /// One direction of the button's gestures.
    Gesture(ButtonId, GestureDirection),
}

/// What a pick in the inspector of `button` changes.
pub fn pick_target(button: ButtonId, shown: &ButtonInspector) -> (target: PickTarget)
    ensures
        target == match *shown {
            ButtonInspector::Gestures { direction, .. } => PickTarget::Gesture(button, direction),
            _ => PickTarget::Binding(button),
        },
{
    match shown {
        ButtonInspector::Gestures { direction, .. } => PickTarget::Gesture(button, *direction),
        _ => PickTarget::Binding(button),
    }
}

/// The open profile offers to go back to the default exactly where it changes a
/// button, and gestures are never offered while it is open.
pub proof fn a_profile_offers_its_way_back(
    shown: ButtonInspector,
    data: BindingInspectorData<'_>,
    button: ButtonId,
)
    requires
        inspects(shown, data, button),
        data.editing_app is Some,
    ensures
        overrides(data, button) ==> (shown matches ButtonInspector::Single { use_default, .. }
            && use_default),
        shown matches ButtonInspector::Single { use_gestures, use_default, .. } ==> !use_gestures
            && use_default == overrides(data, button),
        !(shown is Gestures),
{
}

/// A preset that both directions of the thumb wheel are bound to is shown.
pub proof fn a_bound_preset_is_shown(
    shown: ThumbwheelInspector,
    data: BindingInspectorData<'_>,
    preset: ThumbwheelPreset,
)
    requires
        inspects_thumbwheel(shown, data),
        effective(data.bindings@, data.defaults@, ButtonId::ThumbwheelScrollDown)
            == preset.backward()@,
        effective(data.bindings@, data.defaults@, ButtonId::ThumbwheelScrollUp)
            == preset.forward()@,
    ensures
        shown.current == Some(preset),
{
    match shown.current {
        Some(other) => {
            crate::features::mouse::thumbwheel::presets_are_recognized(preset, other);
        },
        None => {},
    }
}

} // verus!
