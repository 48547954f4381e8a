//! The lighting of a device: effects, colors and zones.

use crate::features::lighting::preview::{next_phase, PHASE_STEP};
use crate::features::mouse::geometry::WHOLE;
use crate::hid::{Lighting, LightingEffect, LightingInfo, LightingPrefab, LightingView, Rgb};
use crate::rank::{before, everyone, in_order, members_before, rank, sorted_by};
use crate::state::load::{LightingLoad, Load};
use crate::state::AppState;
use crate::text::push_char;
use vstd::prelude::*;

verus! {

/// The colors that the panel offers.
pub open spec fn palette_colors() -> Seq<Rgb> {
    seq![
        Rgb { red: 0xff, green: 0x3b, blue: 0x30 },
        Rgb { red: 0xff, green: 0x95, blue: 0x00 },
        Rgb { red: 0xff, green: 0xcc, blue: 0x00 },
        Rgb { red: 0x34, green: 0xc7, blue: 0x59 },
        Rgb { red: 0x00, green: 0xc7, blue: 0xbe },
        Rgb { red: 0x00, green: 0x7a, blue: 0xff },
        Rgb { red: 0x58, green: 0x56, blue: 0xd6 },
        Rgb { red: 0xaf, green: 0x52, blue: 0xde },
        Rgb { red: 0xff, green: 0xff, blue: 0xff },
    ]
}

/// The colors that the panel offers.
pub fn palette() -> (colors: [Rgb; 9])
    ensures
        colors@ == palette_colors(),
{
    [
        Rgb { red: 0xff, green: 0x3b, blue: 0x30 },
        Rgb { red: 0xff, green: 0x95, blue: 0x00 },
        Rgb { red: 0xff, green: 0xcc, blue: 0x00 },
        Rgb { red: 0x34, green: 0xc7, blue: 0x59 },
        Rgb { red: 0x00, green: 0xc7, blue: 0xbe },
        Rgb { red: 0x00, green: 0x7a, blue: 0xff },
        Rgb { red: 0x58, green: 0x56, blue: 0xd6 },
        Rgb { red: 0xaf, green: 0x52, blue: 0xde },
        Rgb { red: 0xff, green: 0xff, blue: 0xff },
    ]
}

/// Whether a color is drawn as selected.
pub fn swatch_selected(color: Rgb, current: &Lighting) -> (selected: bool)
    ensures
        selected == (current.enabled && current.color == color),
{
    current.enabled && current.color == color
}

/// The digit of a value below sixteen, in upper case.
pub open spec fn upper_digit(value: int) -> char {
    if value < 10 {
        ('0' as int + value) as char
    } else {
        ('A' as int + (value - 10)) as char
    }
}

/// A color as it is written: a hash and two digits for each channel.
pub open spec fn written(color: Rgb) -> Seq<char> {
    seq![
        '#',
        upper_digit(color.red as int / 16),
        upper_digit(color.red as int % 16),
        upper_digit(color.green as int / 16),
        upper_digit(color.green as int % 16),
        upper_digit(color.blue as int / 16),
        upper_digit(color.blue as int % 16),
    ]
}

fn push_channel(text: &mut String, channel: u8)
    ensures
        final(text)@ == old(text)@.push(upper_digit(channel as int / 16)).push(
            upper_digit(channel as int % 16),
        ),
{
    push_char(text, to_upper_digit(channel / 16));
    push_char(text, to_upper_digit(channel % 16));
}

fn to_upper_digit(value: u8) -> (digit: char)
    requires
        value < 16,
    ensures
        digit == upper_digit(value as int),
{
    if value < 10 {
        (48u8 + value) as char
    } else {
        (65u8 + (value - 10)) as char
    }
}

/// A color as it is written.
pub fn color_text(color: Rgb) -> (text: String)
    ensures
        text@ == written(color),
{
    let mut text = String::new();
    push_char(&mut text, '#');
    push_channel(&mut text, color.red);
    push_channel(&mut text, color.green);
    push_channel(&mut text, color.blue);
    assert(text@ =~= written(color));
    text
}

/// A change of the lighting that a control of the panel makes.
#[derive(Debug, Clone, Copy, PartialEq, Eq, Structural)]
pub enum LightingEdit {
    Enabled(bool),
    Brightness(u8),
    Speed(u8),
    Effect(LightingEffect),
    Color(Rgb),
}

/// A percentage, no more than a hundred.
pub open spec fn percent(value: u8) -> u8 {
    if value > 100 {
        100
    } else {
        value
    }
}

fn clamp_percent(value: u8) -> (percent: u8)
    ensures
        percent == self::percent(value),
{
    if value > 100 {
        100
    } else {
        value
    }
}

/// The lighting after a change. Every change but the switch itself turns it on.
pub open spec fn edited(lighting: Lighting, edit: LightingEdit) -> Lighting {
    match edit {
        LightingEdit::Enabled(enabled) => Lighting { enabled, ..lighting },
        LightingEdit::Brightness(value) => Lighting {
            enabled: true,
            brightness: percent(value),
            ..lighting
        },
        LightingEdit::Speed(value) => Lighting { enabled: true, speed: percent(value), ..lighting },
        LightingEdit::Effect(effect) => Lighting { enabled: true, effect, ..lighting },
        LightingEdit::Color(color) => Lighting { enabled: true, color, ..lighting },
    }
}

/// Changes the lighting.
pub fn edit_lighting(lighting: &mut Lighting, edit: LightingEdit)
    ensures
        *final(lighting) == edited(*old(lighting), edit),
{
    match edit {
        LightingEdit::Enabled(enabled) => {
            lighting.enabled = enabled;
        },
        LightingEdit::Brightness(value) => {
            lighting.enabled = true;
            lighting.brightness = clamp_percent(value);
        },
        LightingEdit::Speed(value) => {
            lighting.enabled = true;
            lighting.speed = clamp_percent(value);
        },
        LightingEdit::Effect(effect) => {
            lighting.enabled = true;
            lighting.effect = effect;
        },
        LightingEdit::Color(color) => {
            lighting.enabled = true;
            lighting.color = color;
        },
    }
}

/// Where `zone` first stands among `zones`, from position `from` on.
pub open spec fn zone_at(zones: Seq<u8>, zone: u8, from: int) -> Option<int>
    decreases zones.len() - from,
{
    if from < 0 || from >= zones.len() {
        None
    } else if zones[from] == zone {
        Some(from)
    } else {
        zone_at(zones, zone, from + 1)
    }
}

fn find_zone(zones: &Vec<u8>, zone: u8) -> (found: Option<usize>)
    ensures
        match found {
            Some(at) => zone_at(zones@, zone, 0) == Some(at as int) && at < zones@.len()
                && zones@[at as int] == zone,
            None => zone_at(zones@, zone, 0) is None && !zones@.contains(zone),
        },
        found is Some == zones@.contains(zone),
{
    let mut i: usize = 0;
    while i < zones.len()
        invariant
            i <= zones@.len(),
            zone_at(zones@, zone, 0) == zone_at(zones@, zone, i as int),
            forall|j: int| 0 <= j < i ==> zones@[j] != zone,
        decreases zones@.len() - i,
    {
        if zones[i] == zone {
            assert(zones@.contains(zone));
            return Some(i);
        }
        i += 1;
    }
    None
}

/// Whether a zone is lit: an empty selection stands for all of them.
pub open spec fn is_lit(lit: Seq<u8>, zone: u8) -> bool {
    lit.len() == 0 || lit.contains(zone)
}

/// Whether a zone is lit.
pub fn zone_on(lighting: &Lighting, zone: u8) -> (on: bool)
    ensures
        on == is_lit(lighting.zones@, zone),
{
    lighting.zones.len() == 0 || find_zone(&lighting.zones, zone).is_some()
}

/// The zones that are lit.
pub open spec fn lit_zones(lighting: Lighting, all: Seq<u8>) -> Seq<u8> {
    if lighting.zones@.len() == 0 {
        all
    } else {
        lighting.zones@
    }
}

/// The zones as sort keys.
pub open spec fn zone_keys(zones: Seq<u8>) -> Seq<i64> {
    zones.map_values(|zone: u8| zone as i64)
}

/// Whether `after` are the lit zones `before` after a click on `zone`: one that
/// is lit goes out, unless it is the last; one that is not joins the others in
/// order.
pub open spec fn flipped(before: Seq<u8>, zone: u8, after: Seq<u8>) -> bool {
    match zone_at(before, zone, 0) {
        Some(at) => after == if before.len() > 1 {
            before.remove(at)
        } else {
            before
        },
        None => in_order(zone_keys(before.push(zone)), before.push(zone), after),
    }
}

/// A selection as it is kept: that of as many zones as there are is empty.
pub open spec fn kept_zones(selected: Seq<u8>, all: nat) -> Seq<u8> {
    if selected.len() == all {
        seq![]
    } else {
        selected
    }
}

/// A click on the chip of a zone. A selection of as many zones as there are is
/// kept as an empty one.
pub fn toggle_zone(lighting: &mut Lighting, info: &LightingInfo, zone: u8)
    ensures
        *final(lighting) == (Lighting { zones: final(lighting).zones, ..*old(lighting) }),
        exists|selected: Seq<u8>|
            #![trigger flipped(lit_zones(*old(lighting), info.zones@), zone, selected)]
            flipped(lit_zones(*old(lighting), info.zones@), zone, selected) && kept_zones(
                selected,
                info.zones@.len(),
            ) == final(lighting).zones@,
{
    let ghost before = lit_zones(*lighting, info.zones@);
    let mut selected: Vec<u8> = if lighting.zones.len() == 0 {
        copy_zones(&info.zones)
    } else {
        copy_zones(&lighting.zones)
    };
    match find_zone(&selected, zone) {
        Some(at) => {
            if selected.len() > 1 {
                selected.remove(at);
            }
        },
        None => {
            selected.push(zone);
            let mut keys: Vec<i64> = Vec::new();
            let mut i: usize = 0;
            while i < selected.len()
                invariant
                    i <= selected@.len(),
                    keys@ =~= zone_keys(selected@).take(i as int),
                decreases selected@.len() - i,
            {
                keys.push(selected[i] as i64);
                i += 1;
            }
            assert(keys@ =~= zone_keys(selected@));
            selected = sorted_by(&keys, &selected);
        },
    }
    assert(flipped(before, zone, selected@));
    lighting.zones = if selected.len() == info.zones.len() {
        Vec::new()
    } else {
        selected
    };
}

fn copy_zones(zones: &Vec<u8>) -> (copy: Vec<u8>)
    ensures
        copy@ == zones@,
{
    let copy = zones.clone();
    assert(copy@ =~= zones@);
    copy
}

/// The effect that the panel's controls are for: the one in use, else the first
/// that the device offers.
pub open spec fn selected_effect(
    prefabs: Seq<LightingPrefab>,
    effect: LightingEffect,
    from: int,
) -> Option<LightingPrefab>
    decreases prefabs.len() - from,
{
    if from < 0 || from >= prefabs.len() {
        if prefabs.len() > 0 {
            Some(prefabs[0])
        } else {
            None
        }
    } else if prefabs[from].effect == effect {
        Some(prefabs[from])
    } else {
        selected_effect(prefabs, effect, from + 1)
    }
}

/// The effect that the panel's controls are for.
pub fn selected_prefab(prefabs: &Vec<LightingPrefab>, effect: LightingEffect) -> (prefab: Option<
    LightingPrefab,
>)
    ensures
        prefab == selected_effect(prefabs@, effect, 0),
{
    let mut i: usize = 0;
    while i < prefabs.len()
        invariant
            i <= prefabs@.len(),
            selected_effect(prefabs@, effect, 0) == selected_effect(prefabs@, effect, i as int),
        decreases prefabs@.len() - i,
    {
        if prefabs[i].effect == effect {
            return Some(prefabs[i]);
        }
        i += 1;
    }
    if prefabs.len() > 0 {
        Some(prefabs[0])
    } else {
        None
    }
}

/// Which controls the panel shows.
#[derive(Debug, Clone, Copy, PartialEq, Eq, Structural)]
pub struct LightingControls {
    pub effects: bool,
    pub screen_recording_hint: bool,
    pub colors: bool,
    pub speed: bool,
    pub brightness: bool,
    pub zones: bool,
}

/// Whether the device offers an effect.
pub open spec fn offers(prefabs: Seq<LightingPrefab>, effect: LightingEffect) -> bool {
    exists|i: int| 0 <= i < prefabs.len() && (#[trigger] prefabs[i]).effect == effect
}

fn is_offered(prefabs: &Vec<LightingPrefab>, effect: LightingEffect) -> (found: bool)
    ensures
        found == offers(prefabs@, effect),
{
    let mut i: usize = 0;
    while i < prefabs.len()
        invariant
            i <= prefabs@.len(),
            forall|j: int| 0 <= j < i ==> (#[trigger] prefabs@[j]).effect != effect,
        decreases prefabs@.len() - i,
    {
        if prefabs[i].effect == effect {
            return true;
        }
        i += 1;
    }
    false
}

/// Which controls the panel shows: of a device whose offers are not known, none
/// but the switch. `asks_for_screen` says whether the system guards the screen
/// with a permission.
pub open spec fn controls_for(
    info: Option<&LightingInfo>,
    effect: LightingEffect,
    asks_for_screen: bool,
) -> LightingControls {
    match info {
        None => LightingControls {
            effects: false,
            screen_recording_hint: false,
            colors: false,
            speed: false,
            brightness: false,
            zones: false,
        },
        Some(info) => LightingControls {
            effects: info.prefabs@.len() > 0,
            screen_recording_hint: asks_for_screen && offers(
                info.prefabs@,
                LightingEffect::ScreenSampler,
            ),
            colors: selected_effect(info.prefabs@, effect, 0) matches Some(prefab)
                && prefab.has_color,
            speed: selected_effect(info.prefabs@, effect, 0) matches Some(prefab)
                && prefab.has_speed,
            brightness: selected_effect(info.prefabs@, effect, 0) matches Some(prefab)
                && prefab.has_brightness,
            zones: info.zones@.len() > 1,
        },
    }
}

/// Which controls the panel shows.
pub fn lighting_controls(info: Option<&LightingInfo>, effect: LightingEffect, asks_for_screen: bool) -> (
    controls: LightingControls)
    ensures
        controls == controls_for(info, effect, asks_for_screen),
{
    match info {
        None => LightingControls {
            effects: false,
            screen_recording_hint: false,
            colors: false,
            speed: false,
            brightness: false,
            zones: false,
        },
        Some(info) => {
            let (colors, speed, brightness): (bool, bool, bool) = match selected_prefab(
                &info.prefabs,
                effect,
            ) {
                Some(prefab) => (prefab.has_color, prefab.has_speed, prefab.has_brightness),
                None => (false, false, false),
            };
            LightingControls {
                effects: info.prefabs.len() > 0,
                screen_recording_hint: asks_for_screen && is_offered(
                    &info.prefabs,
                    LightingEffect::ScreenSampler,
                ),
                colors,
                speed,
                brightness,
                zones: info.zones.len() > 1,
            }
        },
    }
}

/// The panel: what its two sliders last showed, and the phase of the samples.
#[derive(Debug, Clone, Copy, PartialEq, Eq, Structural)]
pub struct LightingPanel {
    pub last_brightness: u8,
    pub last_speed: u8,
    pub preview_t: u32,
}

/// Which sliders have to be moved to a new value.
#[derive(Debug, Clone, Copy, PartialEq, Eq, Structural)]
pub struct SliderMoves {
    pub brightness: Option<u8>,
    pub speed: Option<u8>,
}

/// A tile that picks an effect.
#[derive(Debug, Clone, Copy, PartialEq, Eq, Structural)]
pub struct EffectTile {
    pub effect: LightingEffect,
    pub selected: bool,
}

/// What the panel shows.
#[derive(Debug)]
pub struct LightingPanelView {
    pub lighting: Lighting,
    pub tiles: Vec<EffectTile>,
    pub controls: LightingControls,
    /// The zones and which of them are lit, where there are several.
    pub zones: Vec<(u8, bool)>,
    pub moves: SliderMoves,
}

/// The tiles of the effects on offer, with the one in use marked.
pub open spec fn tiles_of(prefabs: Seq<LightingPrefab>, effect: LightingEffect) -> Seq<EffectTile> {
    prefabs.map_values(
        |prefab: LightingPrefab|
            EffectTile { effect: prefab.effect, selected: effect == prefab.effect },
    )
}

/// The chips of the zones, each with whether it is lit.
pub open spec fn chips_of(zones: Seq<u8>, lit: Seq<u8>) -> Seq<(u8, bool)> {
    zones.map_values(|zone: u8| (zone, is_lit(lit, zone)))
}

/// Which sliders have to be moved after the lighting, where it changed.
pub open spec fn moves_after(panel: LightingPanel, lighting: LightingView) -> SliderMoves {
    SliderMoves {
        brightness: if lighting.brightness != panel.last_brightness {
            Some(lighting.brightness)
        } else {
            None
        },
        speed: if lighting.speed != panel.last_speed {
            Some(lighting.speed)
        } else {
            None
        },
    }
}

/// The catalog of a device, once it was read.
pub open spec fn known_info(load: LightingLoad) -> Option<&'static LightingInfo> {
    match load {
        Load::Ready(info) => Some(&*info),
        _ => None,
    }
}

fn effect_tiles(prefabs: &Vec<LightingPrefab>, effect: LightingEffect) -> (tiles: Vec<EffectTile>)
    ensures
        tiles@ == tiles_of(prefabs@, effect),
{
    let mut tiles: Vec<EffectTile> = Vec::new();
    let mut i: usize = 0;
    while i < prefabs.len()
        invariant
            i <= prefabs@.len(),
            tiles@ =~= tiles_of(prefabs@, effect).take(i as int),
        decreases prefabs@.len() - i,
    {
        tiles.push(
            EffectTile { effect: prefabs[i].effect, selected: effect == prefabs[i].effect },
        );
        i += 1;
    }
    assert(tiles@ =~= tiles_of(prefabs@, effect));
    tiles
}

fn zone_chips(lighting: &Lighting, info: &LightingInfo) -> (chips: Vec<(u8, bool)>)
    ensures
        chips@ == chips_of(info.zones@, lighting.zones@),
{
    let mut chips: Vec<(u8, bool)> = Vec::new();
    let mut i: usize = 0;
    while i < info.zones.len()
        invariant
            i <= info.zones@.len(),
            chips@ =~= chips_of(info.zones@, lighting.zones@).take(i as int),
        decreases info.zones@.len() - i,
    {
        chips.push((info.zones[i], zone_on(lighting, info.zones[i])));
        i += 1;
    }
    assert(chips@ =~= chips_of(info.zones@, lighting.zones@));
    chips
}

impl LightingPanel {
    /// The panel of a device with the lighting `initial`.
    pub fn new(initial: &Lighting) -> (panel: Self)
        ensures
            panel == (LightingPanel {
                last_brightness: initial.brightness,
                last_speed: initial.speed,
                preview_t: 0,
            }),
    {
        LightingPanel {
            last_brightness: initial.brightness,
            last_speed: initial.speed,
            preview_t: 0,
        }
    }

    /// The samples move on.
    pub fn tick(&mut self)
        requires
            old(self).preview_t < WHOLE,
        ensures
            *final(self) == (LightingPanel {
                preview_t: ((old(self).preview_t + PHASE_STEP) % WHOLE as int) as u32,
                ..*old(self)
            }),
            final(self).preview_t < WHOLE,
    {
        self.preview_t = next_phase(self.preview_t);
    }

    /// Moves the sliders after the lighting, where it changed.
    pub fn sync_sliders(&mut self, lighting: &Lighting) -> (moves: SliderMoves)
        ensures
            *final(self) == (LightingPanel {
                last_brightness: lighting.brightness,
                last_speed: lighting.speed,
                ..*old(self)
            }),
            moves == moves_after(*old(self), lighting@),
    {
        let mut moves = SliderMoves { brightness: None, speed: None };
        if lighting.brightness != self.last_brightness {
            self.last_brightness = lighting.brightness;
            moves.brightness = Some(lighting.brightness);
        }
        if lighting.speed != self.last_speed {
            self.last_speed = lighting.speed;
            moves.speed = Some(lighting.speed);
        }
        moves
    }

    /// What the panel shows of the selected device.
    pub fn render(&mut self, state: Option<&AppState>, default: &Lighting, asks_for_screen: bool) -> (
    view: LightingPanelView)
        ensures
            ({
                let lighting = match state {
                    Some(state) => state.lighting_shown(default@),
                    None => default@,
                };
                let info = match state {
                    Some(state) => known_info(state.lighting_catalog()),
                    None => None,
                };
                &&& view.lighting@ == lighting
                &&& view.controls == controls_for(info, lighting.effect, asks_for_screen)
                &&& view.tiles@ == match info {
                    Some(info) => tiles_of(info.prefabs@, lighting.effect),
                    None => seq![],
                }
                &&& view.zones@ == match info {
                    Some(info) => if info.zones@.len() > 1 {
                        chips_of(info.zones@, lighting.zones)
                    } else {
                        seq![]
                    },
                    None => seq![],
                }
                &&& view.moves == moves_after(*old(self), lighting)
                &&& *final(self) == (LightingPanel {
                    last_brightness: lighting.brightness,
                    last_speed: lighting.speed,
                    ..*old(self)
                })
            }),
    {
        let (lighting, load) = match state {
            Some(state) => (state.lighting(default), state.lighting_info()),
            None => (default.clone(), Load::Unknown),
        };
        let moves = self.sync_sliders(&lighting);
        match &load {
            Load::Ready(info) => {
                let info: &LightingInfo = info;
                let zones = if info.zones.len() > 1 {
                    zone_chips(&lighting, info)
                } else {
                    Vec::new()
                };
                LightingPanelView {
                    tiles: effect_tiles(&info.prefabs, lighting.effect),
                    controls: lighting_controls(Some(info), lighting.effect, asks_for_screen),
                    zones,
                    moves,
                    lighting,
                }
            },
            _ => LightingPanelView {
                tiles: Vec::new(),
                controls: lighting_controls(None, lighting.effect, asks_for_screen),
                zones: Vec::new(),
                moves,
                lighting,
            },
        }
    }
}

/// A click never leaves a device without a lit zone.
pub proof fn a_zone_stays_lit(before: Seq<u8>, zone: u8, after: Seq<u8>)
    requires
        flipped(before, zone, after),
        before.len() > 0,
    ensures
        after.len() > 0,
{
    zone_places(before, zone, 0);
}

proof fn zone_places(zones: Seq<u8>, zone: u8, from: int)
    requires
        0 <= from <= zones.len(),
    ensures
        zone_at(zones, zone, from) matches Some(at) ==> from <= at < zones.len() && zones[at] == zone,
    decreases zones.len() - from,
{
    if from < zones.len() && zones[from] != zone {
        zone_places(zones, zone, from + 1);
    }
}

/// Whether zones stand in order, each once.
pub open spec fn ascending(zones: Seq<u8>) -> bool {
    forall|i: int, j: int| 0 <= i < j < zones.len() ==> zones[i] < zones[j]
}

/// A second click on a zone that was not lit brings the selection back, if it
/// was in order.
pub proof fn a_second_click_undoes_the_first(lit: Seq<u8>, zone: u8, after: Seq<u8>)
    requires
        lit.len() > 0,
        ascending(lit),
        zone_at(lit, zone, 0) is None,
        flipped(lit, zone, after),
    ensures
        flipped(after, zone, lit),
{
    let items = lit.push(zone);
    let keys = zone_keys(items);
    let n = lit.len() as int;
    let all = everyone(keys.len());
    unlisted_zone(lit, zone, 0);
    let p = smaller_zones(lit, zone, n);
    old_places(lit, zone, 0, n);
    assert forall|k: int| 0 <= k < n implies after[if k < p {
        k
    } else {
        k + 1
    }] == lit[k] by {
        old_places(lit, zone, k, n);
        smaller_zones_first(lit, zone, n, k);
        assert(items[k] == lit[k]);
        assert(after[rank(keys, all, k)] == items[k]);
        assert(rank(keys, all, k) == members_before(keys, all, k, n) + if before(keys, n, k) {
            1int
        } else {
            0
        });
    }
    new_place(lit, zone, n);
    assert(after[rank(keys, all, n)] == items[n]);
    assert(rank(keys, all, n) == members_before(keys, all, n, n));
    smaller_zones_are_few(lit, zone, n);
    assert(after[p] == zone);
    first_of(after, zone, p, 0, lit);
    assert(after.remove(p) =~= lit);
}

/// How many of the first `upto` zones are less than `zone`.
spec fn smaller_zones(zones: Seq<u8>, zone: u8, upto: int) -> int
    decreases upto,
{
    if upto <= 0 {
        0
    } else {
        smaller_zones(zones, zone, upto - 1) + if zones[upto - 1] < zone {
            1int
        } else {
            0
        }
    }
}

proof fn smaller_zones_are_few(zones: Seq<u8>, zone: u8, upto: int)
    requires
        0 <= upto <= zones.len(),
    ensures
        0 <= smaller_zones(zones, zone, upto) <= upto,
    decreases upto,
{
    if upto > 0 {
        smaller_zones_are_few(zones, zone, upto - 1);
    }
}

proof fn smaller_zones_first(zones: Seq<u8>, zone: u8, upto: int, k: int)
    requires
        0 <= k < upto <= zones.len(),
        ascending(zones),
        forall|i: int| 0 <= i < zones.len() ==> zones[i] != zone,
    ensures
        (k < smaller_zones(zones, zone, upto)) == (zones[k] < zone),
    decreases upto,
{
    smaller_zones_are_few(zones, zone, upto - 1);
    assert(zones[k] != zone);
    if k < upto - 1 {
        smaller_zones_first(zones, zone, upto - 1, k);
        assert(zones[k] < zones[upto - 1]);
    } else if zones[k] < zone && k > 0 {
        assert(zones[k - 1] < zones[k]);
        smaller_zones_first(zones, zone, k, k - 1);
    }
}

proof fn old_places(zones: Seq<u8>, zone: u8, k: int, upto: int)
    requires
        0 <= k < zones.len(),
        0 <= upto <= zones.len(),
        ascending(zones),
    ensures
        members_before(
            zone_keys(zones.push(zone)),
            everyone(zone_keys(zones.push(zone)).len()),
            k,
            upto,
        ) == if k < upto {
            k
        } else {
            upto
        },
    decreases upto,
{
    if upto > 0 {
        old_places(zones, zone, k, upto - 1);
        let keys = zone_keys(zones.push(zone));
        assert(keys[upto - 1] == zones[upto - 1] as i64 && keys[k] == zones[k] as i64);
        if upto - 1 < k {
            assert(zones[upto - 1] < zones[k]);
        } else if k < upto - 1 {
            assert(zones[k] < zones[upto - 1]);
        }
    }
}

proof fn new_place(zones: Seq<u8>, zone: u8, upto: int)
    requires
        0 <= upto <= zones.len(),
        forall|i: int| 0 <= i < zones.len() ==> zones[i] != zone,
    ensures
        members_before(
            zone_keys(zones.push(zone)),
            everyone(zone_keys(zones.push(zone)).len()),
            zones.len() as int,
            upto,
        ) == smaller_zones(zones, zone, upto),
    decreases upto,
{
    if upto > 0 {
        new_place(zones, zone, upto - 1);
        let keys = zone_keys(zones.push(zone));
        assert(keys[upto - 1] == zones[upto - 1] as i64);
        assert(keys[zones.len() as int] == zone as i64);
        assert(zones[upto - 1] != zone);
    }
}

proof fn unlisted_zone(zones: Seq<u8>, zone: u8, from: int)
    requires
        0 <= from <= zones.len(),
        zone_at(zones, zone, from) is None,
        forall|i: int| 0 <= i < from ==> zones[i] != zone,
    ensures
        forall|i: int| 0 <= i < zones.len() ==> zones[i] != zone,
    decreases zones.len() - from,
{
    if from < zones.len() {
        unlisted_zone(zones, zone, from + 1);
    }
}

proof fn first_of(zones: Seq<u8>, zone: u8, place: int, from: int, others: Seq<u8>)
    requires
        0 <= from <= place < zones.len(),
        zones[place] == zone,
        place <= others.len(),
        forall|k: int| 0 <= k < place ==> zones[k] == others[k],
        forall|i: int| 0 <= i < others.len() ==> others[i] != zone,
    ensures
        zone_at(zones, zone, from) == Some(place),
    decreases place - from,
{
    if from < place {
        assert(zones[from] == others[from]);
        first_of(zones, zone, place, from + 1, others);
    }
}

} // verus!
