//! A camera's controls, what it reports of them, and what is saved for it.

use vstd::prelude::*;

verus! {

/// A control of a camera.
#[derive(Debug, Clone, Copy, PartialEq, Eq, Structural)]
pub enum CameraControl {
    Zoom,
    Focus,
    Exposure,
    PowerLineFrequency,
    LowLightCompensation,
    Brightness,
    Contrast,
    Saturation,
    Sharpness,
    WhiteBalance,
    Tint,
}

/// A mode in which the camera sets one of its controls itself.
#[derive(Debug, Clone, Copy, PartialEq, Eq, Structural)]
pub enum AutoToggle {
    Focus,
    Exposure,
    WhiteBalance,
}

impl CameraControl {
    /// The control's place in a table of all controls.
    pub open spec fn place(self) -> int {
        match self {
            CameraControl::Zoom => 0,
            CameraControl::Focus => 1,
            CameraControl::Exposure => 2,
            CameraControl::PowerLineFrequency => 3,
            CameraControl::LowLightCompensation => 4,
            CameraControl::Brightness => 5,
            CameraControl::Contrast => 6,
            CameraControl::Saturation => 7,
            CameraControl::Sharpness => 8,
            CameraControl::WhiteBalance => 9,
            CameraControl::Tint => 10,
        }
    }

    pub(crate) fn index(self) -> (index: usize)
        ensures
            index == self.place(),
            index < 11,
    {
        match self {
            CameraControl::Zoom => 0,
            CameraControl::Focus => 1,
            CameraControl::Exposure => 2,
            CameraControl::PowerLineFrequency => 3,
            CameraControl::LowLightCompensation => 4,
            CameraControl::Brightness => 5,
            CameraControl::Contrast => 6,
            CameraControl::Saturation => 7,
            CameraControl::Sharpness => 8,
            CameraControl::WhiteBalance => 9,
            CameraControl::Tint => 10,
        }
    }

    /// The mode that can own the control.
    pub open spec fn owner(self) -> Option<AutoToggle> {
        match self {
            CameraControl::Focus => Some(AutoToggle::Focus),
            CameraControl::Exposure => Some(AutoToggle::Exposure),
            CameraControl::WhiteBalance => Some(AutoToggle::WhiteBalance),
            _ => None,
        }
    }

    /// The mode that can own the control.
    pub fn auto_toggle(self) -> (toggle: Option<AutoToggle>)
        ensures
            toggle == self.owner(),
    {
        match self {
            CameraControl::Focus => Some(AutoToggle::Focus),
            CameraControl::Exposure => Some(AutoToggle::Exposure),
            CameraControl::WhiteBalance => Some(AutoToggle::WhiteBalance),
            _ => None,
        }
    }

    /// Whether the control belongs to the lens rather than to the picture.
    pub open spec fn of_lens(self) -> bool {
        self is Zoom || self is Focus || self is Exposure
    }

    pub(crate) fn is_of_lens(self) -> (lens: bool)
        ensures
            lens == self.of_lens(),
    {
        match self {
            CameraControl::Zoom => true,
            CameraControl::Focus => true,
            CameraControl::Exposure => true,
            _ => false,
        }
    }

    /// The message that names the control.
    pub open spec fn label(self) -> Seq<char> {
        match self {
            CameraControl::Zoom => "common.zoom"@,
            CameraControl::Focus => "camera.focus"@,
            CameraControl::Exposure => "camera.exposure"@,
            CameraControl::PowerLineFrequency => "camera.anti_flicker"@,
            CameraControl::LowLightCompensation => "camera.low_light_compensation"@,
            CameraControl::Brightness => "camera.brightness"@,
            CameraControl::Contrast => "camera.contrast"@,
            CameraControl::Saturation => "camera.saturation"@,
            CameraControl::Sharpness => "camera.sharpness"@,
            CameraControl::WhiteBalance => "camera.white_balance"@,
            CameraControl::Tint => "camera.tint"@,
        }
    }

    /// The message that names the control.
    pub fn control_label(self) -> (key: &'static str)
        ensures
            key@ == self.label(),
    {
        match self {
            CameraControl::Zoom => "common.zoom",
            CameraControl::Focus => "camera.focus",
            CameraControl::Exposure => "camera.exposure",
            CameraControl::PowerLineFrequency => "camera.anti_flicker",
            CameraControl::LowLightCompensation => "camera.low_light_compensation",
            CameraControl::Brightness => "camera.brightness",
            CameraControl::Contrast => "camera.contrast",
            CameraControl::Saturation => "camera.saturation",
            CameraControl::Sharpness => "camera.sharpness",
            CameraControl::WhiteBalance => "camera.white_balance",
            CameraControl::Tint => "camera.tint",
        }
    }
}

impl AutoToggle {
    /// The mode's place in a table of all modes.
    pub open spec fn place(self) -> int {
        match self {
            AutoToggle::Focus => 0,
            AutoToggle::Exposure => 1,
            AutoToggle::WhiteBalance => 2,
        }
    }

    pub(crate) fn index(self) -> (index: usize)
        ensures
            index == self.place(),
            index < 3,
    {
        match self {
            AutoToggle::Focus => 0,
            AutoToggle::Exposure => 1,
            AutoToggle::WhiteBalance => 2,
        }
    }
}

/// The values that a control takes.
#[derive(Debug, Clone, Copy, PartialEq, Eq, Structural)]
pub struct ControlRange {
    pub min: i32,
    pub max: i32,
    pub default: i32,
    pub current: i32,
    /// Whether the values one, two and three are supported.
    pub supports_one: bool,
    pub supports_two: bool,
    pub supports_three: bool,
}

impl ControlRange {
    /// Whether there is a value in the range.
    pub open spec fn valid(self) -> bool {
        self.min <= self.max
    }

    /// `value` brought into the range.
    pub open spec fn clamped(self, value: int) -> int {
        if value < self.min {
            self.min as int
        } else if value > self.max {
            self.max as int
        } else {
            value
        }
    }

    /// `value` brought into the range.
    pub fn clamp(&self, value: i64) -> (clamped: i32)
        requires
            self.valid(),
        ensures
            clamped == self.clamped(value as int),
            self.min <= clamped <= self.max,
    {
        if value < self.min as i64 {
            self.min
        } else if value > self.max as i64 {
            self.max
        } else {
            value as i32
        }
    }
}

/// A mode as the camera reports it.
#[derive(Debug, Clone, Copy, PartialEq, Eq, Structural)]
pub struct AutoReading {
    pub toggle: AutoToggle,
    pub current: bool,
    pub default: bool,
}

/// A control as the camera reports it.
#[derive(Debug, Clone, Copy, PartialEq, Eq, Structural)]
pub struct ControlReading {
    pub control: CameraControl,
    pub range: ControlRange,
}

/// All that a camera reports.
#[derive(Debug)]
pub struct CameraState {
    pub controls: Vec<ControlReading>,
    pub autos: Vec<AutoReading>,
}

impl CameraState {
    /// Whether every reported range holds a value.
    pub open spec fn valid(self) -> bool {
        forall|i: int| 0 <= i < self.controls@.len() ==> (#[trigger] self.controls@[i]).range.valid()
    }
}

/// Where the first reading of `toggle` is, from position `from` on.
pub open spec fn auto_at(autos: Seq<AutoReading>, toggle: AutoToggle, from: int) -> Option<int>
    decreases autos.len() - from,
{
    if from < 0 || from >= autos.len() {
        None
    } else if autos[from].toggle == toggle {
        Some(from)
    } else {
        auto_at(autos, toggle, from + 1)
    }
}

/// Where the first reading of `control` is, from position `from` on.
pub open spec fn control_at(
    controls: Seq<ControlReading>,
    control: CameraControl,
    from: int,
) -> Option<int>
    decreases controls.len() - from,
{
    if from < 0 || from >= controls.len() {
        None
    } else if controls[from].control == control {
        Some(from)
    } else {
        control_at(controls, control, from + 1)
    }
}

/// The first reading of `toggle`.
pub fn find_auto(autos: &Vec<AutoReading>, toggle: AutoToggle) -> (found: Option<usize>)
    ensures
        match found {
            Some(at) => auto_at(autos@, toggle, 0) == Some(at as int) && at < autos@.len(),
            None => auto_at(autos@, toggle, 0) is None,
        },
{
    let mut i: usize = 0;
    while i < autos.len()
        invariant
            i <= autos@.len(),
            auto_at(autos@, toggle, 0) == auto_at(autos@, toggle, i as int),
        decreases autos@.len() - i,
    {
        if autos[i].toggle == toggle {
            return Some(i);
        }
        i += 1;
    }
    None
}

/// The first reading of `control`.
pub fn find_control(controls: &Vec<ControlReading>, control: CameraControl) -> (found: Option<usize>)
    ensures
        match found {
            Some(at) => control_at(controls@, control, 0) == Some(at as int) && at
                < controls@.len(),
            None => control_at(controls@, control, 0) is None,
        },
{
    let mut i: usize = 0;
    while i < controls.len()
        invariant
            i <= controls@.len(),
            control_at(controls@, control, 0) == control_at(controls@, control, i as int),
        decreases controls@.len() - i,
    {
        if controls[i].control == control {
            return Some(i);
        }
        i += 1;
    }
    None
}

/// Saved values of controls and modes. A mode's value is on unless it is zero.
#[derive(Debug, Clone, Copy)]
pub struct CameraControls {
    values: [Option<i32>; 11],
    autos: [Option<i32>; 3],
}

impl CameraControls {
    /// The saved value of a control.
    pub closed spec fn saved(self, control: CameraControl) -> Option<i32> {
        self.values@[control.place()]
    }

    /// The saved value of a mode.
    pub closed spec fn saved_mode(self, toggle: AutoToggle) -> Option<i32> {
        self.autos@[toggle.place()]
    }

    /// Whether a mode is saved as on.
    pub open spec fn saved_auto(self, toggle: AutoToggle) -> Option<bool> {
        match self.saved_mode(toggle) {
            Some(value) => Some(value != 0),
            None => None,
        }
    }

    /// Nothing is saved.
    pub fn new() -> (controls: Self)
        ensures
            forall|control: CameraControl| (#[trigger] controls.saved(control)) is None,
            forall|toggle: AutoToggle| (#[trigger] controls.saved_mode(toggle)) is None,
    {
        CameraControls {
            values: [None, None, None, None, None, None, None, None, None, None, None],
            autos: [None, None, None],
        }
    }

    /// The saved value of a control.
    pub fn value(&self, control: CameraControl) -> (value: Option<i32>)
        ensures
            value == self.saved(control),
    {
        self.values[control.index()]
    }

    /// Whether a mode is saved as on.
    pub fn auto(&self, toggle: AutoToggle) -> (on: Option<bool>)
        ensures
            on == self.saved_auto(toggle),
    {
        match self.autos[toggle.index()] {
            Some(value) => Some(value != 0),
            None => None,
        }
    }

    /// Saves the value of a control.
    pub fn set_value(&mut self, control: CameraControl, value: i32)
        ensures
            final(self).saved(control) == Some(value),
            forall|other: CameraControl|
                other != control ==> #[trigger] final(self).saved(other) == old(self).saved(other),
            forall|toggle: AutoToggle| #[trigger]
                final(self).saved_mode(toggle) == old(self).saved_mode(toggle),
    {
        let i = control.index();
        self.values[i] = Some(value);
    }

    /// Saves whether a mode is on.
    pub fn set_auto(&mut self, toggle: AutoToggle, on: bool)
        ensures
            final(self).saved_mode(toggle) == Some(
                if on {
                    1i32
                } else {
                    0i32
                },
            ),
            forall|other: AutoToggle|
                other != toggle ==> #[trigger] final(self).saved_mode(other) == old(
                    self).saved_mode(other),
            forall|control: CameraControl| #[trigger]
                final(self).saved(control) == old(self).saved(control),
    {
        let i = toggle.index();
        self.autos[i] = Some(
            if on {
                1
            } else {
                0
            },
        );
    }
}

} // verus!
