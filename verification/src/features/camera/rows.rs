//! What the camera panel shows: its sections, rows and profile chips.

use crate::features::camera::controls::{
    selected_camera, CameraControlsPanel, CameraSettings, ControlSlider,
};
use crate::features::camera::device::CameraControl;
use crate::features::camera::profiles::BuiltinProfile;
use crate::state::AppState;
use crate::text::{borrowed, optional_view, owned_view, same_optional_text};
use vstd::prelude::*;

verus! {

/// The places among the first `upto` sliders that belong to the lens, or to the
/// picture.
pub open spec fn section(sliders: Seq<ControlSlider>, lens: bool, upto: int) -> Seq<usize>
    decreases upto,
{
    if upto <= 0 {
        seq![]
    } else {
        let rest = section(sliders, lens, upto - 1);
        if sliders[upto - 1].control.of_lens() == lens {
            rest.push((upto - 1) as usize)
        } else {
            rest
        }
    }
}

/// The places of the sliders that belong to the lens, or to the picture.
pub fn section_indices(sliders: &Vec<ControlSlider>, lens: bool) -> (indices: Vec<usize>)
    ensures
        indices@ == section(sliders@, lens, sliders@.len() as int),
{
    let mut indices: Vec<usize> = Vec::new();
    let mut i: usize = 0;
    while i < sliders.len()
        invariant
            i <= sliders@.len(),
            indices@ == section(sliders@, lens, i as int),
        decreases sliders@.len() - i,
    {
        if sliders[i].control.is_of_lens() == lens {
            indices.push(i);
        }
        i += 1;
    }
    indices
}

/// What the panel shows.
#[derive(Debug)]
pub enum PanelBody {
    /// There are no controls to show.
    Unavailable,
    /// The rows of the two sections. A section is headed where there are both.
    Sections { lens: Vec<usize>, image: Vec<usize>, headed: bool },
}

/// What the panel shows.
pub fn panel_body(panel: &CameraControlsPanel) -> (body: PanelBody)
    ensures
        if panel.sliders@.len() == 0 {
            body is Unavailable
        } else {
            body matches PanelBody::Sections { lens, image, headed } && lens@ == section(
                panel.sliders@,
                true,
                panel.sliders@.len() as int,
            ) && image@ == section(panel.sliders@, false, panel.sliders@.len() as int) && headed
                == (lens@.len() > 0 && image@.len() > 0)
        },
{
    if panel.sliders.len() == 0 {
        return PanelBody::Unavailable;
    }
    let lens = section_indices(&panel.sliders, true);
    let image = section_indices(&panel.sliders, false);
    let headed = lens.len() > 0 && image.len() > 0;
    PanelBody::Sections { lens, image, headed }
}

/// A choice of the mains frequency.
#[derive(Debug, Clone, Copy)]
pub struct FrequencyChoice {
    pub value: i32,
    pub label: &'static str,
    pub active: bool,
}

/// A row of the panel.
#[derive(Debug)]
pub enum ControlRow {
    /// Chips for the mains frequency.
    Frequency { choices: Vec<FrequencyChoice> },
    /// A switch.
    Binary { on: bool },
    /// A slider.
    Slider {
        value: i32,
        /// Whether a mode owns the value; it can be grabbed all the same.
        dimmed: bool,
        /// The mode's row and whether it is on.
        auto: Option<(usize, bool)>,
    },
}

/// Whether the row of a slider is one of frequency chips.
pub open spec fn shows_frequencies(slider: ControlSlider) -> bool {
    slider.control == CameraControl::PowerLineFrequency && (slider.range.supports_one
        || slider.range.supports_two || slider.range.supports_three)
}

/// Whether the row of a slider is a switch.
pub open spec fn shows_switch(slider: ControlSlider) -> bool {
    slider.control == CameraControl::LowLightCompensation && slider.range.min == 0
        && slider.range.max == 1
}

/// The frequencies that a camera supports.
pub open spec fn frequencies(slider: ControlSlider) -> Seq<int> {
    let one: Seq<int> = if slider.range.supports_one {
        seq![1]
    } else {
        seq![]
    };
    let two = if slider.range.supports_two {
        one.push(2)
    } else {
        one
    };
    if slider.range.supports_three {
        two.push(3)
    } else {
        two
    }
}

/// What a frequency chip says.
pub open spec fn frequency_label(value: int) -> Seq<char> {
    if value == 1 {
        "50 Hz"@
    } else if value == 2 {
        "60 Hz"@
    } else {
        "common.auto"@
    }
}

/// Whether `choices` are the chips of the frequencies that a camera supports.
pub open spec fn offers_frequencies(choices: Seq<FrequencyChoice>, slider: ControlSlider) -> bool {
    &&& choices.len() == frequencies(slider).len()
    &&& forall|i: int|
        #![trigger choices[i]]
        0 <= i < choices.len() ==> choices[i].value == frequencies(slider)[i] && choices[i].label@
            == frequency_label(frequencies(slider)[i]) && choices[i].active == (slider.value
            == frequencies(slider)[i])
}

/// The chips of the frequencies that a camera supports.
pub fn frequency_row(slider: &ControlSlider) -> (choices: Vec<FrequencyChoice>)
    ensures
        offers_frequencies(choices@, *slider),
{
    let mut choices: Vec<FrequencyChoice> = Vec::new();
    if slider.range.supports_one {
        choices.push(FrequencyChoice { value: 1, label: "50 Hz", active: slider.value == 1 });
    }
    if slider.range.supports_two {
        choices.push(FrequencyChoice { value: 2, label: "60 Hz", active: slider.value == 2 });
    }
    if slider.range.supports_three {
        choices.push(
            FrequencyChoice { value: 3, label: "common.auto", active: slider.value == 3 },
        );
    }
    choices
}

/// Whether `row` is the row of slider `ix`.
pub open spec fn is_row(row: ControlRow, panel: CameraControlsPanel, ix: int) -> bool {
    let slider = panel.sliders@[ix];
    if shows_frequencies(slider) {
        row matches ControlRow::Frequency { choices } && offers_frequencies(choices@, slider)
    } else if shows_switch(slider) {
        row matches ControlRow::Binary { on } && on == (slider.value != 0)
    } else {
        row matches ControlRow::Slider { value, dimmed, auto } && value == slider.value && dimmed
            == (panel.auto_state(slider.control) == Some(true)) && match auto {
            Some((at, on)) => slider.control.owner() is Some && panel.auto_row(
                slider.control.owner()->0,
                0,
            ) == Some(at as int) && panel.auto_state(slider.control) == Some(on),
            None => panel.auto_state(slider.control) is None,
        }
    }
}

/// The row of slider `ix`.
pub fn control_row(panel: &CameraControlsPanel, ix: usize) -> (row: ControlRow)
    requires
        ix < panel.sliders@.len(),
    ensures
        is_row(row, *panel, ix as int),
{
    let slider = panel.sliders[ix];
    if slider.control == CameraControl::PowerLineFrequency && (slider.range.supports_one
        || slider.range.supports_two || slider.range.supports_three) {
        return ControlRow::Frequency { choices: frequency_row(&slider) };
    }
    if slider.control == CameraControl::LowLightCompensation && slider.range.min == 0
        && slider.range.max == 1 {
        return ControlRow::Binary { on: slider.value != 0 };
    }
    let auto: Option<(usize, bool)> = match slider.control.auto_toggle() {
        None => None,
        Some(toggle) => match panel.find_auto_row(toggle) {
            Some(at) => Some((at, panel.autos[at].on)),
            None => None,
        },
    };
    let dimmed = match auto {
        Some((_, on)) => on,
        None => false,
    };
    ControlRow::Slider { value: slider.value, dimmed, auto }
}

/// The value that a click on a switch sets.
pub fn switched(on: bool) -> (value: i32)
    ensures
        value == if on {
            0i32
        } else {
            1i32
        },
{
    if on {
        0
    } else {
        1
    }
}

/// Whether the chip of the profile with this id is drawn as selected.
pub fn profile_selected(active: Option<&str>, id: &str) -> (selected: bool)
    ensures
        selected == (optional_view(active) == Some(id@)),
{
    same_optional_text(active, Some(id))
}

/// The chip of a profile.
#[derive(Debug)]
pub struct ProfileChip {
    pub id: String,
    pub selected: bool,
    /// Whether it can be deleted: the built-in ones cannot.
    pub deletable: bool,
}

/// Whether `chip` is that of the profile with this id.
pub open spec fn is_chip_of(
    chip: ProfileChip,
    id: Seq<char>,
    active: Option<Seq<char>>,
    deletable: bool,
) -> bool {
    chip.id@ == id && chip.selected == (active == Some(id)) && chip.deletable == deletable
}

fn profile_chip(id: &str, active: Option<&str>, deletable: bool) -> (chip: ProfileChip)
    ensures
        is_chip_of(chip, id@, optional_view(active), deletable),
{
    ProfileChip { id: id.to_owned(), selected: profile_selected(active, id), deletable }
}

/// Whether `chips` are those of the profiles: the built-in ones, then the saved
/// ones by name.
pub open spec fn offers_profiles(chips: Seq<ProfileChip>, settings: CameraSettings) -> bool {
    let active = owned_view(settings.active_profile);
    let customs = settings.profiles.in_order();
    &&& chips.len() == 3 + customs.len()
    &&& is_chip_of(chips[0], BuiltinProfile::Default.name(), active, false)
    &&& is_chip_of(chips[1], BuiltinProfile::Streaming.name(), active, false)
    &&& is_chip_of(chips[2], BuiltinProfile::VideoCall.name(), active, false)
    &&& forall|k: int|
        3 <= k < chips.len() ==> is_chip_of(
            #[trigger] chips[k],
            customs[k - 3].0@,
            active,
            true,
        )
}

/// The chips of the profiles: the built-in ones, then the saved ones by name.
pub fn profiles_row(settings: &CameraSettings) -> (chips: Vec<ProfileChip>)
    ensures
        offers_profiles(chips@, *settings),
{
    let active = borrowed(&settings.active_profile);
    let mut chips: Vec<ProfileChip> = Vec::new();
    chips.push(profile_chip(BuiltinProfile::Default.id(), active, false));
    chips.push(profile_chip(BuiltinProfile::Streaming.id(), active, false));
    chips.push(profile_chip(BuiltinProfile::VideoCall.id(), active, false));
    let count = settings.profiles.len();
    let mut i: usize = 0;
    while i < count
        invariant
            i <= count,
            count == settings.profiles.in_order().len(),
            optional_view(active) == owned_view(settings.active_profile),
            chips@.len() == 3 + i,
            is_chip_of(
                chips@[0],
                BuiltinProfile::Default.name(),
                optional_view(active),
                false,
            ),
            is_chip_of(
                chips@[1],
                BuiltinProfile::Streaming.name(),
                optional_view(active),
                false,
            ),
            is_chip_of(
                chips@[2],
                BuiltinProfile::VideoCall.name(),
                optional_view(active),
                false,
            ),
            forall|k: int|
                3 <= k < 3 + i ==> is_chip_of(
                    #[trigger] chips@[k],
                    settings.profiles.in_order()[k - 3].0@,
                    optional_view(active),
                    true,
                ),
        decreases count - i,
    {
        chips.push(profile_chip(settings.profiles.entry(i).0, active, true));
        i += 1;
    }
    chips
}

/// Every slider is in exactly one section.
pub proof fn sections_hold_every_slider(sliders: Seq<ControlSlider>, upto: int, i: int)
    requires
        0 <= upto <= sliders.len(),
        upto <= usize::MAX,
        0 <= i < upto,
    ensures
        section(sliders, sliders[i].control.of_lens(), upto).contains(i as usize),
        !section(sliders, !sliders[i].control.of_lens(), upto).contains(i as usize),
        section(sliders, true, upto).len() + section(sliders, false, upto).len() == upto,
    decreases upto,
{
    sections_are_below(sliders, true, upto);
    sections_are_below(sliders, false, upto);
    let lens = sliders[i].control.of_lens();
    let all = section(sliders, lens, upto);
    let rest = section(sliders, lens, upto - 1);
    if i == upto - 1 {
        assert(all[all.len() - 1] == i as usize);
        sections_are_below(sliders, !lens, upto - 1);
        let others = section(sliders, !lens, upto);
        let fewer = section(sliders, !lens, upto - 1);
        assert(others == fewer);
        assert forall|m: int| 0 <= m < others.len() implies others[m] != i as usize by {
            assert(fewer[m] < upto - 1);
        }
        section_sizes(sliders, upto);
    } else {
        sections_hold_every_slider(sliders, upto - 1, i);
        let k = choose|k: int| 0 <= k < rest.len() && rest[k] == i as usize;
        assert(all[k] == i as usize);
        let others = section(sliders, !lens, upto);
        let fewer = section(sliders, !lens, upto - 1);
        assert forall|m: int| 0 <= m < others.len() implies others[m] != i as usize by {
            if m < fewer.len() {
                assert(others[m] == fewer[m]);
                assert(!fewer.contains(i as usize));
            }
        }
        section_sizes(sliders, upto);
    }
}

proof fn section_sizes(sliders: Seq<ControlSlider>, upto: int)
    requires
        0 <= upto <= sliders.len(),
    ensures
        section(sliders, true, upto).len() + section(sliders, false, upto).len() == upto,
    decreases upto,
{
    if upto > 0 {
        section_sizes(sliders, upto - 1);
    }
}

proof fn sections_are_below(sliders: Seq<ControlSlider>, lens: bool, upto: int)
    requires
        0 <= upto <= sliders.len(),
        upto <= usize::MAX,
    ensures
        forall|k: int|
            0 <= k < section(sliders, lens, upto).len() ==> #[trigger] section(sliders, lens, upto)[k]
                < upto,
    decreases upto,
{
    if upto > 0 {
        sections_are_below(sliders, lens, upto - 1);
        let all = section(sliders, lens, upto);
        let rest = section(sliders, lens, upto - 1);
        assert forall|k: int| 0 <= k < all.len() implies #[trigger] all[k] < upto by {
            if k < rest.len() {
                assert(all[k] == rest[k]);
            }
        }
    }
}

/// The panel as it is drawn.
#[derive(Debug)]
pub enum CameraScreen {
    /// There are no controls to show.
    Unavailable,
    /// The profiles and the rows of the two sections, which are headed where
    /// there are both.
    Rows { chips: Vec<ProfileChip>, headed: bool, lens: Vec<ControlRow>, image: Vec<ControlRow> },
}

/// Whether `rows` are the rows of a section.
pub open spec fn shows_section(
    rows: Seq<ControlRow>,
    panel: CameraControlsPanel,
    lens: bool,
) -> bool {
    let indices = section(panel.sliders@, lens, panel.sliders@.len() as int);
    &&& rows.len() == indices.len()
    &&& forall|i: int|
        #![trigger rows[i]]
        0 <= i < rows.len() ==> is_row(rows[i], panel, indices[i] as int)
}

fn section_rows(panel: &CameraControlsPanel, indices: &Vec<usize>, lens: bool) -> (rows: Vec<
    ControlRow,
>)
    requires
        indices@ == section(panel.sliders@, lens, panel.sliders@.len() as int),
    ensures
        shows_section(rows@, *panel, lens),
{
    proof {
        assert(panel.sliders.len() <= usize::MAX);
        sections_are_below(panel.sliders@, lens, panel.sliders@.len() as int);
    }
    let mut rows: Vec<ControlRow> = Vec::new();
    let mut i: usize = 0;
    while i < indices.len()
        invariant
            i <= indices@.len(),
            rows@.len() == i,
            forall|k: int|
                0 <= k < indices@.len() ==> (#[trigger] indices@[k]) < panel.sliders@.len(),
            forall|k: int|
                #![trigger rows@[k]]
                0 <= k < i ==> is_row(rows@[k], *panel, indices@[k] as int),
        decreases indices@.len() - i,
    {
        rows.push(control_row(panel, indices[i]));
        i += 1;
    }
    rows
}

/// What has to happen before the panel is drawn.
#[derive(Debug)]
pub enum Preparation {
    /// No camera is selected, so that nothing is drawn.
    Blank,
    /// The rows have to be built for this camera first.
    Build { key: String, uid: String },
    Ready,
}

impl CameraControlsPanel {
    /// Makes ready to be drawn for the selected device: without a camera the
    /// rows are dropped, and another camera's rows have to be built.
    pub fn prepare(&mut self, state: Option<&AppState>) -> (preparation: Preparation)
        ensures
            match preparation {
                Preparation::Blank => selected_camera(state) is None && final(self).empty(),
                Preparation::Build { key, uid } => {
                    &&& selected_camera(state) == Some((key@, uid@))
                    &&& !old(self).built_for(key@, uid@)
                    &&& *final(self) == *old(self)
                },
                Preparation::Ready => {
                    &&& selected_camera(state) matches Some((key, uid))
                    &&& old(self).built_for(key, uid)
                    &&& *final(self) == *old(self)
                },
            },
    {
        match CameraControlsPanel::active_camera(state) {
            None => {
                self.deselect();
                Preparation::Blank
            },
            Some((key, uid)) => if self.needs_build(key.as_str(), uid.as_str()) {
                Preparation::Build { key, uid }
            } else {
                Preparation::Ready
            },
        }
    }

    /// What is drawn once the rows are built.
    pub fn render(&self, settings: &CameraSettings) -> (screen: CameraScreen)
        ensures
            match screen {
                CameraScreen::Unavailable => self.sliders@.len() == 0,
                CameraScreen::Rows { chips, headed, lens, image } => {
                    &&& self.sliders@.len() > 0
                    &&& offers_profiles(chips@, *settings)
                    &&& shows_section(lens@, *self, true)
                    &&& shows_section(image@, *self, false)
                    &&& headed == (lens@.len() > 0 && image@.len() > 0)
                },
            },
    {
        match panel_body(self) {
            PanelBody::Unavailable => CameraScreen::Unavailable,
            PanelBody::Sections { lens, image, headed } => CameraScreen::Rows {
                chips: profiles_row(settings),
                headed,
                lens: section_rows(self, &lens, true),
                image: section_rows(self, &image, false),
            },
        }
    }
}

} // verus!
