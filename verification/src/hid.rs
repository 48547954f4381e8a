//! Values that the agent reads from devices and writes to them.

use vstd::prelude::*;

verus! {

/// A pointer resolution.
pub type Dpi = u16;

/// A polling frequency, in reports per second.
pub type ReportRateHz = u16;

/// Why a device request failed.
#[derive(Debug, Clone, Copy, PartialEq, Eq, Structural)]
pub enum WriteError {
    /// The agent is not there, for now.
    AgentUnavailable,
    /// The device lacks the feature.
    FeatureUnsupported { feature_hex: u16 },
    /// The device listed no resolutions.
    EmptyDpiList,
    /// The device listed no polling frequencies.
    EmptyReportRateList,
    /// Anything else that went wrong with the device, by its code.
    Device { code: u16 },
}

/// A sorted list of supported values, never empty.
#[derive(Debug, PartialEq, Eq)]
pub struct SupportedValues {
    values: Vec<u16>,
    step_hint: u16,
}

/// Whether `values` never decrease.
pub open spec fn not_decreasing(values: Seq<u16>) -> bool {
    forall|i: int, j: int| 0 <= i <= j < values.len() ==> values[i] <= values[j]
}

/// How far two values are apart.
pub open spec fn distance(a: int, b: int) -> int {
    if a < b {
        b - a
    } else {
        a - b
    }
}

/// Whether `values[at]` is the first of the values that are nearest to `target`.
pub open spec fn first_nearest(values: Seq<u16>, target: int, at: int) -> bool {
    &&& 0 <= at < values.len()
    &&& forall|i: int|
        #![trigger values[i]]
        0 <= i < values.len() ==> distance(values[at] as int, target) <= distance(
            values[i] as int,
            target,
        )
    &&& forall|i: int|
        #![trigger values[i]]
        0 <= i < at ==> distance(values[at] as int, target) < distance(values[i] as int, target)
}

fn apart(a: u16, b: u16) -> (far: u16)
    ensures
        far == distance(a as int, b as int),
{
    if a < b {
        b - a
    } else {
        a - b
    }
}

impl View for SupportedValues {
    type V = Seq<u16>;

    closed spec fn view(&self) -> Seq<u16> {
        self.values@
    }
}

impl SupportedValues {
    pub closed spec fn spec_step_hint(self) -> u16 {
        self.step_hint
    }

    #[verifier::type_invariant]
    spec fn well_formed(self) -> bool {
        self.values@.len() > 0 && not_decreasing(self.values@)
    }

    /// The list, if it is sorted and not empty.
    pub fn new(values: Vec<u16>, step_hint: u16) -> (list: Option<Self>)
        ensures
            list is Some <==> values@.len() > 0 && not_decreasing(values@),
            list matches Some(list) ==> list@ == values@ && list.spec_step_hint() == step_hint,
    {
        if values.len() == 0 {
            return None;
        }
        let mut i: usize = 1;
        while i < values.len()
            invariant
                1 <= i <= values@.len(),
                not_decreasing(values@.take(i as int)),
            decreases values@.len() - i,
        {
            if values[i] < values[i - 1] {
                assert(values@[i - 1] > values@[i as int]);
                return None;
            }
            proof {
                let longer = values@.take(i + 1);
                assert forall|a: int, b: int| 0 <= a <= b < longer.len() implies longer[a]
                    <= longer[b] by {
                    if b == i && a < i {
                        assert(values@.take(i as int)[a] <= values@.take(i as int)[i - 1]);
                    } else if b < i {
                        assert(values@.take(i as int)[a] <= values@.take(i as int)[b]);
                    }
                }
            }
            i += 1;
        }
        assert(values@.take(values@.len() as int) =~= values@);
        Some(SupportedValues { values, step_hint })
    }

    /// The values in order.
    pub fn values(&self) -> (values: &Vec<u16>)
        ensures
            values@ == self@,
            values@.len() > 0,
            not_decreasing(values@),
    {
        proof {
            use_type_invariant(self);
        }
        &self.values
    }

    /// The least value.
    pub fn min(&self) -> (min: u16)
        ensures
            min == self@[0],
            self@.len() > 0,
            forall|i: int| 0 <= i < self@.len() ==> min <= #[trigger] self@[i],
    {
        proof {
            use_type_invariant(self);
        }
        self.values[0]
    }

    /// The greatest value.
    pub fn max(&self) -> (max: u16)
        ensures
            max == self@.last(),
            self@.len() > 0,
            forall|i: int| 0 <= i < self@.len() ==> #[trigger] self@[i] <= max,
    {
        proof {
            use_type_invariant(self);
        }
        self.values[self.values.len() - 1]
    }

    /// The distance that a slider should move by.
    pub fn step_hint(&self) -> (step: u16)
        ensures
            step == self.spec_step_hint(),
    {
        self.step_hint
    }

    /// The supported value nearest to `target`; of two equally near ones the
    /// first in the list.
    pub fn nearest(&self, target: u16) -> (value: u16)
        ensures
            exists|at: int| #[trigger] first_nearest(self@, target as int, at) && value == self@[at],
    {
        proof {
            use_type_invariant(self);
        }
        let mut best: usize = 0;
        let mut i: usize = 1;
        while i < self.values.len()
            invariant
                1 <= i <= self.values@.len(),
                best < i,
                first_nearest(self.values@.take(i as int), target as int, best as int),
            decreases self.values@.len() - i,
        {
            let ghost shorter = self.values@.take(i as int);
            let ghost longer = self.values@.take(i + 1);
            proof {
                assert(forall|j: int| 0 <= j < i ==> shorter[j] == #[trigger] longer[j]);
            }
            if apart(self.values[i], target) < apart(self.values[best], target) {
                proof {
                    assert forall|j: int| #![trigger longer[j]] 0 <= j < i implies distance(
                        longer[i as int] as int,
                        target as int,
                    ) < distance(longer[j] as int, target as int) by {
                        assert(shorter[j] == longer[j]);
                    }
                }
                best = i;
            } else {
                proof {
                    assert forall|j: int| #![trigger longer[j]] 0 <= j < longer.len() implies distance(
                        longer[best as int] as int,
                        target as int,
                    ) <= distance(longer[j] as int, target as int) by {
                        if j < i {
                            assert(shorter[j] == longer[j]);
                        }
                    }
                    assert forall|j: int| #![trigger longer[j]] 0 <= j < best implies distance(
                        longer[best as int] as int,
                        target as int,
                    ) < distance(longer[j] as int, target as int) by {
                        assert(shorter[j] == longer[j]);
                    }
                }
            }
            i += 1;
        }
        assert(self.values@.take(self.values@.len() as int) =~= self.values@);
        assert(first_nearest(self@, target as int, best as int));
        self.values[best]
    }

    /// A list of the same values.
    pub fn duplicate(&self) -> (copy: SupportedValues)
        ensures
            copy@ == self@,
            copy.spec_step_hint() == self.spec_step_hint(),
    {
        proof {
            use_type_invariant(self);
        }
        let values = self.values.clone();
        assert(values@ =~= self.values@);
        SupportedValues { values, step_hint: self.step_hint }
    }

    /// Whether two lists hold the same values with the same step.
    pub fn same(&self, other: &SupportedValues) -> (same: bool)
        ensures
            same == (self@ == other@ && self.spec_step_hint() == other.spec_step_hint()),
    {
        same_numbers(&self.values, &other.values) && self.step_hint == other.step_hint
    }
}

/// Whether two lists of numbers are equal.
pub fn same_numbers(a: &Vec<u16>, b: &Vec<u16>) -> (same: bool)
    ensures
        same == (a@ == b@),
{
    if a.len() != b.len() {
        return false;
    }
    let mut i: usize = 0;
    while i < a.len()
        invariant
            i <= a@.len(),
            a@.len() == b@.len(),
            forall|j: int| 0 <= j < i ==> a@[j] == b@[j],
        decreases a@.len() - i,
    {
        if a[i] != b[i] {
            return false;
        }
        i += 1;
    }
    assert(a@ =~= b@);
    true
}

/// Snapping to the list keeps a value that is in it.
pub proof fn nearest_keeps_members(values: Seq<u16>, target: u16, at: int)
    requires
        values.contains(target),
        first_nearest(values, target as int, at),
    ensures
        values[at] == target,
{
    let i = choose|i: int| 0 <= i < values.len() && values[i] == target;
    assert(distance(values[at] as int, target as int) <= distance(values[i] as int, target as int));
}

/// A device's resolution and those it supports.
#[derive(Debug, PartialEq, Eq)]
pub struct DpiInfo {
    pub current: Dpi,
    pub capabilities: SupportedValues,
}

/// A device's polling frequency and those it supports.
#[derive(Debug, PartialEq, Eq)]
pub struct ReportRateInfo {
    pub current: ReportRateHz,
    pub capabilities: SupportedValues,
}

/// The wheel's mode.
#[derive(Debug, Clone, Copy, PartialEq, Eq, Structural)]
pub enum SmartShiftMode {
    Free,
    Ratchet,
}

/// From which wheel speed on the ratchet lets go, in quarter turns a second.
#[derive(Debug, Clone, Copy, PartialEq, Eq, Structural)]
pub struct SmartShiftThreshold {
    pub value: u8,
}

/// Whether and when the ratchet lets go.
#[derive(Debug, Clone, Copy, PartialEq, Eq, Structural)]
pub enum SmartShiftAutoDisengage {
    Threshold(SmartShiftThreshold),
    Permanent,
}

/// A device's SmartShift configuration.
#[derive(Debug, Clone, Copy, PartialEq, Eq, Structural)]
pub struct SmartShiftStatus {
    pub mode: SmartShiftMode,
    pub auto_disengage: SmartShiftAutoDisengage,
    pub tunable_torque: Option<u8>,
}

/// How far one notch of the wheel scrolls.
#[derive(Debug, Clone, Copy, PartialEq, Eq, Structural)]
pub enum ScrollResolution {
    Low,
    High,
}

/// A color.
#[derive(Debug, Clone, Copy, PartialEq, Eq, Structural)]
pub struct Rgb {
    pub red: u8,
    pub green: u8,
    pub blue: u8,
}

/// A lighting effect.
#[derive(Debug, Clone, Copy, PartialEq, Eq, Structural)]
pub enum LightingEffect {
    Solid,
    LightOnPress,
    EchoPress,
    ColorCycle,
    ColorWave,
    SpectrumPulse,
    Neon,
    Ocean,
    Breathing,
    Pulsar,
    Starlight,
    SmoothStars,
    OuterSpace,
    Ripple,
    SmoothWave,
    Tide,
    Lightning,
    VerticalFade,
    Contrast,
    RedWhiteBlue,
    ScreenSampler,
    AudioVisualizer,
}

/// A device's lighting settings. An empty list of zones stands for all zones.
#[derive(Debug)]
pub struct Lighting {
    pub enabled: bool,
    pub color: Rgb,
    pub brightness: u8,
    pub speed: u8,
    pub effect: LightingEffect,
    pub zones: Vec<u8>,
}

/// What a [`Lighting`] holds.
pub struct LightingView {
    pub enabled: bool,
    pub color: Rgb,
    pub brightness: u8,
    pub speed: u8,
    pub effect: LightingEffect,
    pub zones: Seq<u8>,
}

impl View for Lighting {
    type V = LightingView;

    open spec fn view(&self) -> LightingView {
        LightingView {
            enabled: self.enabled,
            color: self.color,
            brightness: self.brightness,
            speed: self.speed,
            effect: self.effect,
            zones: self.zones@,
        }
    }
}

impl Clone for Lighting {
    fn clone(&self) -> (copy: Self)
        ensures
            copy@ == self@,
    {
        let zones = self.zones.clone();
        assert(zones@ =~= self.zones@);
        Lighting {
            enabled: self.enabled,
            color: self.color,
            brightness: self.brightness,
            speed: self.speed,
            effect: self.effect,
            zones,
        }
    }
}

/// What an effect tile of a device offers.
#[derive(Debug, Clone, Copy, PartialEq, Eq, Structural)]
pub struct LightingPrefab {
    pub effect: LightingEffect,
    pub has_color: bool,
    pub has_speed: bool,
    pub has_brightness: bool,
}

/// The lighting effects and zones that a device offers.
#[derive(Debug, PartialEq, Eq)]
pub struct LightingInfo {
    pub prefabs: Vec<LightingPrefab>,
    pub zones: Vec<u8>,
}

/// How an onboard LED is driven.
#[derive(Debug, Clone, Copy, PartialEq, Eq, Structural)]
pub enum OnboardLedMode {
    Off,
    Solid,
    Cycle,
    Breathing,
    /// A mode without an effect of its own.
    Other,
}

/// An onboard LED record, as read from firmware.
#[derive(Debug, Clone, Copy, PartialEq, Eq, Structural)]
pub struct OnboardLed {
    pub mode: OnboardLedMode,
    pub color: Rgb,
    pub brightness: u8,
}

/// A change of one control of a standalone light.
#[derive(Debug, Clone, Copy, PartialEq, Eq, Structural)]
pub enum LightCommand {
    Power(bool),
    Brightness(u16),
    Temperature(u16),
}

} // verus!
