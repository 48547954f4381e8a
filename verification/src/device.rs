//! Devices: what they are, how they are reached, and what they can do.

use vstd::prelude::*;

verus! {

/// The class of a device.
#[derive(Debug, Clone, Copy, PartialEq, Eq, Structural)]
pub enum DeviceKind {
    Mouse,
    Keyboard,
    Numpad,
    Presenter,
    Remote,
    Trackball,
    Touchpad,
    Tablet,
    Gamepad,
    Joystick,
    Headset,
    Camera,
    Unknown,
    Light,
}

/// How a device is addressed: through which kind of link, and at which
/// endpoint of it.
#[derive(Debug, Clone, Copy, PartialEq, Eq, Structural)]
pub enum DeviceRoute {
    /// Paired to a Bolt receiver.
    Bolt { endpoint: u64 },
    /// Paired to a Unifying receiver.
    Unifying { endpoint: u64 },
    /// Addressed directly, over a cable or Bluetooth.
    Direct { endpoint: u64 },
    /// Addressed as a raw HID device.
    RawHid { endpoint: u64 },
}

/// The transports a device's firmware lists.
#[derive(Debug, Clone, Copy, PartialEq, Eq, Structural)]
pub struct DeviceTransports {
    pub usb: bool,
    pub equad: bool,
    pub btle: bool,
    pub bluetooth: bool,
}

/// What a device's firmware says of its model. What tells one unit of the model
/// from another is no part of it.
#[derive(Debug, Clone, Copy, PartialEq, Eq, Structural)]
pub struct DeviceModelInfo {
    /// How many firmware entities the device has.
    pub entity_count: u8,
    /// The firmware's transport table.
    pub transports: DeviceTransports,
    /// First product id; `0` stands for none, as in the two that follow.
    pub model_id_1: u16,
    pub model_id_2: u16,
    pub model_id_3: u16,
    /// Distinguishes models that share product ids.
    pub extended_model_id: u8,
}

/// What a device can do, as measured on one link.
#[derive(Debug, Clone, Copy, PartialEq, Eq, Structural)]
pub struct Capabilities {
    pub haptic_feedback: bool,
    pub lighting: bool,
    pub hires_wheel: bool,
    pub scroll_inversion: bool,
    /// The capabilities that no rule of the window reads, one bit each.
    pub others: u32,
}

impl Capabilities {
    /// Nothing was measured.
    pub fn none() -> (capabilities: Self)
        ensures
            capabilities == (Capabilities {
                haptic_feedback: false,
                lighting: false,
                hires_wheel: false,
                scroll_inversion: false,
                others: 0,
            }),
    {
        Capabilities {
            haptic_feedback: false,
            lighting: false,
            hires_wheel: false,
            scroll_inversion: false,
            others: 0,
        }
    }
}

/// The unit that a light's values are given in.
#[derive(Debug, Clone, Copy, PartialEq, Eq, Structural)]
pub enum LightValueUnit {
    Lumens,
    Kelvin,
    Percent,
}

/// A range of values with a grid: `min`, `min + step`, and so on up to `max`.
#[derive(Debug, Clone, Copy, PartialEq, Eq, Structural)]
pub struct LightValueRange {
    min: u16,
    max: u16,
    step: u16,
    unit: LightValueUnit,
}

impl LightValueRange {
    pub closed spec fn spec_min(self) -> int {
        self.min as int
    }

    pub closed spec fn spec_max(self) -> int {
        self.max as int
    }

    pub closed spec fn spec_step(self) -> int {
        self.step as int
    }

    pub closed spec fn spec_unit(self) -> LightValueUnit {
        self.unit
    }

    #[verifier::type_invariant]
    spec fn well_formed(self) -> bool {
        self.min <= self.max && self.step > 0
    }

    /// A range, if its ends are in order and its step is not zero.
    pub fn new(min: u16, max: u16, step: u16, unit: LightValueUnit) -> (range: Option<Self>)
        ensures
            range is Some <==> min <= max && step > 0,
            range matches Some(range) ==> {
                &&& range.spec_min() == min
                &&& range.spec_max() == max
                &&& range.spec_step() == step
                &&& range.spec_unit() == unit
            },
    {
        if min <= max && step > 0 {
            Some(LightValueRange { min, max, step, unit })
        } else {
            None
        }
    }

    /// The least value.
    pub fn min(&self) -> (min: u16)
        ensures
            min == self.spec_min(),
    {
        self.min
    }

    /// The greatest value.
    pub fn max(&self) -> (max: u16)
        ensures
            max == self.spec_max(),
            self.spec_min() <= max,
    {
        proof {
            use_type_invariant(self);
        }
        self.max
    }

    /// The distance between neighbouring grid values.
    pub fn step(&self) -> (step: u16)
        ensures
            step == self.spec_step(),
            step > 0,
    {
        proof {
            use_type_invariant(self);
        }
        self.step
    }

    /// The unit of the values.
    pub fn unit(&self) -> (unit: LightValueUnit)
        ensures
            unit == self.spec_unit(),
    {
        self.unit
    }

    /// The grid value nearest to `value` after clamping it into the range; of
    /// two equally near ones the greater, and never more than the maximum.
    pub open spec fn quantized(self, value: int) -> int {
        let inside = if value < self.spec_min() {
            self.spec_min()
        } else if value > self.spec_max() {
            self.spec_max()
        } else {
            value
        };
        let steps = (inside - self.spec_min() + self.spec_step() / 2) / self.spec_step();
        let snapped = self.spec_min() + steps * self.spec_step();
        if snapped > self.spec_max() {
            self.spec_max()
        } else {
            snapped
        }
    }

    /// Snaps `value` to the grid.
    pub fn quantize(&self, value: u16) -> (snapped: u16)
        ensures
            snapped == self.quantized(value as int),
            self.spec_min() <= snapped <= self.spec_max(),
    {
        proof {
            use_type_invariant(self);
        }
        let inside: u16 = if value < self.min {
            self.min
        } else if value > self.max {
            self.max
        } else {
            value
        };
        let step: u32 = self.step as u32;
        let steps: u32 = ((inside - self.min) as u32 + step / 2) / step;
        assert(0 <= steps * step <= inside - self.min + step / 2) by (nonlinear_arith)
            requires
                step > 0,
                inside >= self.min,
                steps == (inside - self.min + step / 2) / (step as int),
        ;
        let snapped: u32 = self.min as u32 + steps * step;
        if snapped > self.max as u32 {
            self.max
        } else {
            snapped as u16
        }
    }
}

/// What a standalone light can do.
#[derive(Debug, Clone, Copy, PartialEq, Eq, Structural)]
pub struct LightCapabilities {
    pub power: bool,
    pub brightness: Option<LightValueRange>,
    pub temperature: Option<LightValueRange>,
}

/// A battery reading. `charging_without_reading` marks a device that charges
/// and reports no level meanwhile.
#[derive(Debug, Clone, Copy, PartialEq, Eq, Structural)]
pub struct BatteryInfo {
    pub percentage: u8,
    /// The coarse level and the charging state, by the firmware's numbers.
    pub level: u8,
    pub status: u8,
    pub charging_without_reading: bool,
}

} // verus!
