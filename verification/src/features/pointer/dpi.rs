//! The resolution panel.

use crate::hid::{first_nearest, Dpi, SupportedValues};
use crate::services::device_reads::shown;
use crate::state::load::{DpiStatus, Load};
use crate::state::AppState;
use crate::text::{decimal, push_decimal, push_text, same_text};
use vstd::prelude::*;

verus! {

/// What the panel reads off the state.
#[derive(Debug)]
pub struct DpiPanelSnapshot {
    pub device_key: String,
    pub dpi: Dpi,
    pub presets: Vec<Dpi>,
    pub status: DpiStatus,
    /// Whether the device can be reached. One that cannot is never read.
    pub reachable: bool,
}

/// What the panel reads off the state, with `presets` those of the selected
/// device. Without a device nothing can be set, and `no_device` says so.
pub fn dpi_panel_snapshot(
    state: Option<&AppState>,
    presets: Vec<Dpi>,
    default_dpi: Dpi,
    no_device: &str,
) -> (snapshot: DpiPanelSnapshot)
    ensures
        match (state, snapshot) {
            (
                Some(state),
                DpiPanelSnapshot { device_key, dpi, presets: shown_presets, status, reachable },
            ) if state.current() is Some => {
                &&& device_key@ == state.current()->0.config_key@
                &&& dpi == state.pointer.dpi
                &&& shown_presets == presets
                &&& status == shown(state.pointer.reads.dpi@, device_key@)
                &&& reachable == (state.current()->0.route is Some)
            },
            (
                _,
                DpiPanelSnapshot { device_key, dpi, presets: shown_presets, status, reachable },
            ) => {
                &&& device_key@ == ""@
                &&& dpi == default_dpi
                &&& shown_presets@ == Seq::<Dpi>::empty()
                &&& (status matches Load::Unsupported(reason) && reason@ == no_device@)
                &&& !reachable
            },
        },
{
    if let Some(state) = state {
        if let Some(record) = state.current_record() {
            return DpiPanelSnapshot {
                device_key: record.config_key.clone(),
                dpi: state.pointer.dpi,
                presets,
                status: state.pointer.reads.dpi_status(record.config_key.as_str()),
                reachable: record.route.is_some(),
            };
        }
    }
    DpiPanelSnapshot {
        device_key: "".to_owned(),
        dpi: default_dpi,
        presets: Vec::new(),
        status: Load::Unsupported(no_device.to_owned()),
        reachable: false,
    }
}

/// The range that a slider was made for.
#[derive(Debug, Clone, Copy, PartialEq, Eq, Structural)]
pub struct SliderShape {
    pub min: Dpi,
    pub max: Dpi,
    pub step: Dpi,
}

/// The range of a device's resolutions.
pub open spec fn shape_of(capabilities: SupportedValues) -> SliderShape {
    SliderShape {
        min: capabilities@[0],
        max: capabilities@.last(),
        step: capabilities.spec_step_hint(),
    }
}

/// Whether `value` is the supported one nearest to `dpi`.
pub open spec fn snaps(capabilities: Seq<u16>, dpi: Dpi, value: Dpi) -> bool {
    exists|at: int| #[trigger] first_nearest(capabilities, dpi as int, at) && value == capabilities[at]
}

/// A slider and where its thumb rests.
#[derive(Debug)]
pub struct DpiSlider {
    pub key: String,
    pub shape: SliderShape,
    pub thumb: Dpi,
}

/// The panel.
#[derive(Debug)]
pub struct DpiPanel {
    pub slider: Option<DpiSlider>,
}

impl DpiPanel {
    /// The panel before a device was read.
    pub fn new() -> (panel: Self)
        ensures
            panel.slider is None,
    {
        DpiPanel { slider: None }
    }

    /// Whether the slider was made for this device and range.
    pub open spec fn made_for(self, key: Seq<char>, shape: SliderShape) -> bool {
        self.slider matches Some(slider) && slider.key@ == key && slider.shape == shape
    }

    /// Whether `after` is this panel with the slider of a device made, or the
    /// thumb of the one that there is moved.
    pub open spec fn slider_ensured(
        self,
        after: DpiPanel,
        key: Seq<char>,
        capabilities: SupportedValues,
        dpi: Dpi,
    ) -> bool {
        &&& after.made_for(key, shape_of(capabilities))
        &&& after.slider matches Some(slider) && {
            &&& !self.made_for(key, shape_of(capabilities)) ==> snaps(
                capabilities@,
                dpi,
                slider.thumb,
            )
            &&& self.made_for(key, shape_of(capabilities)) ==> {
                let before = self.slider->0.thumb;
                ||| slider.thumb == before && exists|target: Dpi| #[trigger]
                    snaps(capabilities@, dpi, target) && snaps(capabilities@, before, target)
                ||| snaps(capabilities@, dpi, slider.thumb) && !snaps(
                    capabilities@,
                    before,
                    slider.thumb,
                )
            }
        }
    }

    /// Makes the slider of a device, or moves the thumb of the one that there
    /// is. The thumb moves only if it rests on another supported value than
    /// `dpi` stands for: a drag may rest between two of them.
    pub fn ensure_slider(&mut self, key: &str, capabilities: &SupportedValues, dpi: Dpi)
        ensures
            old(self).slider_ensured(*final(self), key@, *capabilities, dpi),
    {
        let shape = SliderShape {
            min: capabilities.min(),
            max: capabilities.max(),
            step: capabilities.step_hint(),
        };
        let target: Dpi = capabilities.nearest(dpi);
        assert(snaps(capabilities@, dpi, target));
        let made: Option<Dpi> = match &self.slider {
            Some(slider) => if same_text(slider.key.as_str(), key) && slider.shape == shape {
                Some(slider.thumb)
            } else {
                None
            },
            None => None,
        };
        if let Some(before) = made {
            let thumb: Dpi = capabilities.nearest(before);
            assert(snaps(capabilities@, before, thumb));
            if thumb != target {
                proof {
                    if snaps(capabilities@, before, target) {
                        one_snap(capabilities@, before, thumb, target);
                    }
                }
                self.slider = Some(DpiSlider { key: key.to_owned(), shape, thumb: target });
            }
            return;
        }
        self.slider = Some(DpiSlider { key: key.to_owned(), shape, thumb: target });
    }

    /// There is no slider while the device's resolutions are not known.
    pub fn drop_slider(&mut self)
        ensures
            final(self).slider is None,
    {
        self.slider = None;
    }

    /// The thumb was dragged.
    pub fn drag(&mut self, thumb: Dpi)
        ensures
            final(self).slider == match old(self).slider {
                Some(slider) => Some(DpiSlider { thumb, ..slider }),
                None => None,
            },
    {
        if let Some(slider) = &mut self.slider {
            slider.thumb = thumb;
        }
    }
}

/// There is one supported value that a resolution stands for.
pub proof fn one_snap(values: Seq<u16>, dpi: Dpi, a: Dpi, b: Dpi)
    requires
        snaps(values, dpi, a),
        snaps(values, dpi, b),
    ensures
        a == b,
{
    let i = choose|at: int| #[trigger] first_nearest(values, dpi as int, at) && a == values[at];
    let j = choose|at: int| #[trigger] first_nearest(values, dpi as int, at) && b == values[at];
    if i < j {
        assert(values[i] == values[i]);
        assert(crate::hid::distance(values[j] as int, dpi as int) < crate::hid::distance(
            values[i] as int,
            dpi as int,
        ));
    } else if j < i {
        assert(crate::hid::distance(values[i] as int, dpi as int) < crate::hid::distance(
            values[j] as int,
            dpi as int,
        ));
    }
}

/// The first preset from position `from` on that stands for `dpi`.
pub open spec fn first_match(normalized: Seq<Dpi>, dpi: Dpi, from: int) -> Option<int>
    decreases normalized.len() - from,
{
    if from < 0 || from >= normalized.len() {
        None
    } else if normalized[from] == dpi {
        Some(from)
    } else {
        first_match(normalized, dpi, from + 1)
    }
}

/// Which preset is highlighted: the first that stands for the resolution in
/// use, and no other. `normalized` are the presets as the device supports them.
pub fn highlighted_preset(normalized: &Vec<Dpi>, dpi: Dpi) -> (active: Option<usize>)
    ensures
        match active {
            Some(at) => first_match(normalized@, dpi, 0) == Some(at as int),
            None => first_match(normalized@, dpi, 0) is None,
        },
{
    let mut i: usize = 0;
    while i < normalized.len()
        invariant
            i <= normalized@.len(),
            first_match(normalized@, dpi, 0) == first_match(normalized@, dpi, i as int),
        decreases normalized@.len() - i,
    {
        if normalized[i] == dpi {
            return Some(i);
        }
        i += 1;
    }
    None
}

/// The resolution that a click on a preset writes: only one that the device
/// supports, so none while these are not known.
pub fn applied_preset(capabilities: Option<&SupportedValues>, value: Dpi) -> (dpi: Option<Dpi>)
    ensures
        match (capabilities, dpi) {
            (Some(capabilities), Some(dpi)) => snaps(capabilities@, value, dpi),
            (None, None) => true,
            _ => false,
        },
{
    match capabilities {
        Some(capabilities) => {
            let dpi: Dpi = capabilities.nearest(value);
            assert(snaps(capabilities@, value, dpi));
            Some(dpi)
        },
        None => None,
    }
}

/// The presets without the one at `idx`.
pub fn without_preset(presets: &Vec<Dpi>, idx: usize) -> (next: Vec<Dpi>)
    ensures
        next@ == if idx < presets@.len() {
            presets@.remove(idx as int)
        } else {
            presets@
        },
{
    let mut next = presets.clone();
    assert(next@ =~= presets@);
    if idx < next.len() {
        next.remove(idx);
    }
    next
}

/// The presets with the resolution in use at their end. The same one may stand
/// there twice.
pub fn with_preset(presets: &Vec<Dpi>, dpi: Dpi) -> (next: Vec<Dpi>)
    ensures
        next@ == presets@.push(dpi),
{
    let mut next = presets.clone();
    assert(next@ =~= presets@);
    next.push(dpi);
    next
}

/// What stands under the slider.
#[derive(Debug)]
pub enum RangeLabel {
    /// The range itself.
    Range(String),
    Offline,
    Loading,
    /// The read failed, for the reason given.
    Failed(String),
    Unavailable(String),
}

/// A range as it is written.
pub open spec fn written_range(shape: SliderShape) -> Seq<char> {
    decimal(shape.min as nat) + "\u{2013}"@ + decimal(shape.max as nat) + " \u{b7} step "@
        + decimal(shape.step as nat)
}

/// Whether `label` is what stands under the slider.
pub open spec fn label_of(label: RangeLabel, status: DpiStatus, reachable: bool) -> bool {
    match status {
        Load::Ready(info) => label matches RangeLabel::Range(text) && text@ == written_range(
            shape_of(info.capabilities),
        ),
        Load::Failed(message) => label matches RangeLabel::Failed(reason) && reason@ == message@,
        Load::Unsupported(message) => label matches RangeLabel::Unavailable(reason) && reason@
            == message@,
        _ => if reachable {
            label is Loading
        } else {
            label is Offline
        },
    }
}

/// What stands under the slider.
pub fn dpi_range_label(status: &DpiStatus, reachable: bool) -> (label: RangeLabel)
    ensures
        label_of(label, *status, reachable),
{
    match status {
        Load::Ready(info) => {
            let mut text = String::new();
            push_decimal(&mut text, info.capabilities.min() as u64);
            push_text(&mut text, "\u{2013}");
            push_decimal(&mut text, info.capabilities.max() as u64);
            push_text(&mut text, " \u{b7} step ");
            push_decimal(&mut text, info.capabilities.step_hint() as u64);
            assert(text@ =~= written_range(shape_of(info.capabilities)));
            RangeLabel::Range(text)
        },
        Load::Failed(message) => RangeLabel::Failed(message.clone()),
        Load::Unsupported(message) => RangeLabel::Unavailable(message.clone()),
        _ => if reachable {
            RangeLabel::Loading
        } else {
            RangeLabel::Offline
        },
    }
}

/// What stands in the slider's place.
#[derive(Debug, Clone, Copy, PartialEq, Eq, Structural)]
pub enum SliderElement {
    /// There is only one resolution.
    Fixed(Dpi),
    Slider,
    Preparing,
    Offline,
    Reading,
    /// The read failed; a click tries again.
    Retry,
    Unsupported,
}

/// What stands in the slider's place.
pub open spec fn element_of(status: DpiStatus, has_slider: bool, reachable: bool) -> SliderElement {
    match status {
        Load::Ready(info) => if shape_of(info.capabilities).min == shape_of(
            info.capabilities,
        ).max {
            SliderElement::Fixed(shape_of(info.capabilities).min)
        } else if has_slider {
            SliderElement::Slider
        } else {
            SliderElement::Preparing
        },
        Load::Failed(_) => SliderElement::Retry,
        Load::Unsupported(_) => SliderElement::Unsupported,
        _ => if reachable {
            SliderElement::Reading
        } else {
            SliderElement::Offline
        },
    }
}

/// What stands in the slider's place.
pub fn slider_element(status: &DpiStatus, has_slider: bool, reachable: bool) -> (element:
    SliderElement)
    ensures
        element == element_of(*status, has_slider, reachable),
{
    match status {
        Load::Ready(info) => if info.capabilities.min() == info.capabilities.max() {
            SliderElement::Fixed(info.capabilities.min())
        } else if has_slider {
            SliderElement::Slider
        } else {
            SliderElement::Preparing
        },
        Load::Failed(_) => SliderElement::Retry,
        Load::Unsupported(_) => SliderElement::Unsupported,
        _ => if reachable {
            SliderElement::Reading
        } else {
            SliderElement::Offline
        },
    }
}

/// What the panel shows.
#[derive(Debug)]
pub struct DpiView {
    pub dpi: Dpi,
    pub element: SliderElement,
    pub label: RangeLabel,
    /// The preset that is highlighted.
    pub active: Option<usize>,
}

impl DpiPanel {
    /// What the panel shows of a snapshot, with `normalized` its presets as the
    /// device supports them. The slider exists only while the device's
    /// resolutions are known.
    pub fn render(&mut self, snapshot: &DpiPanelSnapshot, normalized: &Vec<Dpi>) -> (view: DpiView)
        ensures
            match snapshot.status {
                Load::Ready(info) => old(self).slider_ensured(
                    *final(self),
                    snapshot.device_key@,
                    info.capabilities,
                    snapshot.dpi,
                ),
                _ => final(self).slider is None,
            },
            view.dpi == snapshot.dpi,
            view.element == element_of(snapshot.status, true, snapshot.reachable),
            label_of(view.label, snapshot.status, snapshot.reachable),
            match view.active {
                Some(at) => first_match(normalized@, snapshot.dpi, 0) == Some(at as int),
                None => first_match(normalized@, snapshot.dpi, 0) is None,
            },
    {
        match &snapshot.status {
            Load::Ready(info) => {
                self.ensure_slider(
                    snapshot.device_key.as_str(),
                    &info.capabilities,
                    snapshot.dpi,
                );
            },
            _ => {
                self.drop_slider();
            },
        }
        DpiView {
            dpi: snapshot.dpi,
            element: slider_element(&snapshot.status, self.slider.is_some(), snapshot.reachable),
            label: dpi_range_label(&snapshot.status, snapshot.reachable),
            active: highlighted_preset(normalized, snapshot.dpi),
        }
    }
}

} // verus!
