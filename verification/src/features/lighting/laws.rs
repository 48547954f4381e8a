//! What the lighting panels show and change.

use crate::device::{LightCapabilities, LightValueRange};
use crate::features::lighting::device::{
    color_text, edit_lighting, flipped, kept_zones, lighting_controls, lit_zones, selected_effect,
    selected_prefab, swatch_selected, toggle_zone, zone_at, zone_keys, zone_on, LightingControls,
    LightingEdit, LightingPanel, SliderMoves,
};
use crate::features::lighting::preview::{dim, hue, next_phase, preview_rgb};
use crate::features::lighting::standalone::{
    camera_automation, light_panel_view, light_status, released_brightness, released_temperature,
    LightPanel, LightPanelView, LightSettings,
};
use crate::hid::{Lighting, LightingEffect, LightingInfo, LightingPrefab, Rgb};
use crate::rank::{every_place_is_taken, everyone, in_order, rank, ranks_are_few};
use vstd::prelude::*;

verus! {

/// A change of the lighting changes what it is about, turns the lighting on
/// unless it is the switch itself, and keeps the rest. No percentage exceeds a
/// hundred.
pub proof fn an_edit_changes_one_thing(lighting: &mut Lighting, edit: LightingEdit)
    requires
        call_ensures(edit_lighting, (lighting, edit), ()),
    ensures
        final(lighting).zones == old(lighting).zones,
        final(lighting).enabled == match edit {
            LightingEdit::Enabled(on) => on,
            _ => true,
        },
        match edit {
            LightingEdit::Brightness(value) => final(lighting).brightness == if value > 100 {
                100u8
            } else {
                value
            },
            _ => final(lighting).brightness == old(lighting).brightness,
        },
        match edit {
            LightingEdit::Speed(value) => final(lighting).speed == if value > 100 {
                100u8
            } else {
                value
            },
            _ => final(lighting).speed == old(lighting).speed,
        },
        match edit {
            LightingEdit::Effect(effect) => final(lighting).effect == effect,
            _ => final(lighting).effect == old(lighting).effect,
        },
        match edit {
            LightingEdit::Color(color) => final(lighting).color == color,
            _ => final(lighting).color == old(lighting).color,
        },
{
}

/// A color is drawn as selected while it is the one in use and the lighting is
/// on.
pub proof fn the_color_in_use_is_selected(color: Rgb, current: &Lighting, selected: bool)
    requires
        call_ensures(swatch_selected, (color, current), selected),
    ensures
        selected <==> current.enabled && current.color.red == color.red && current.color.green
            == color.green && current.color.blue == color.blue,
{
}

/// The value of a digit of base sixteen in upper case.
pub open spec fn value_of(c: char) -> int {
    if '0' <= c <= '9' {
        c as int - '0' as int
    } else {
        c as int - 'A' as int + 10
    }
}

/// Whether a character is a digit of base sixteen in upper case.
pub open spec fn is_upper_digit(c: char) -> bool {
    '0' <= c <= '9' || 'A' <= c <= 'F'
}

/// A color is written as a hash and two digits of base sixteen for red, green
/// and blue, which read back as the color.
pub proof fn a_color_is_read_back(color: Rgb, text: String, i: int)
    requires
        call_ensures(color_text, (color,), text),
    ensures
        text@.len() == 7,
        text@[0] == '#',
        1 <= i < 7 ==> is_upper_digit(text@[i]),
        16 * value_of(text@[1]) + value_of(text@[2]) == color.red,
        16 * value_of(text@[3]) + value_of(text@[4]) == color.green,
        16 * value_of(text@[5]) + value_of(text@[6]) == color.blue,
{
    let (r, g, b) = (color.red as int, color.green as int, color.blue as int);
    assert(0 <= r / 16 < 16 && 0 <= r % 16 < 16 && 16 * (r / 16) + r % 16 == r);
    assert(0 <= g / 16 < 16 && 0 <= g % 16 < 16 && 16 * (g / 16) + g % 16 == g);
    assert(0 <= b / 16 < 16 && 0 <= b % 16 < 16 && 16 * (b / 16) + b % 16 == b);
}

/// A zone is lit where the selection lists it; an empty selection lights all.
pub proof fn an_empty_selection_lights_all(lighting: &Lighting, zone: u8, on: bool)
    requires
        call_ensures(zone_on, (lighting, zone), on),
    ensures
        lighting.zones@.len() == 0 ==> on,
        lighting.zones@.len() > 0 ==> (on <==> lighting.zones@.contains(zone)),
{
}

proof fn zone_stands(zones: Seq<u8>, zone: u8, from: int)
    requires
        0 <= from <= zones.len(),
    ensures
        match zone_at(zones, zone, from) {
            Some(at) => from <= at < zones.len() && zones[at] == zone,
            None => forall|i: int| from <= i < zones.len() ==> #[trigger] zones[i] != zone,
        },
    decreases zones.len() - from,
{
    if from < zones.len() {
        zone_stands(zones, zone, from + 1);
    }
}

proof fn arranged_holds(items: Seq<u8>, after: Seq<u8>, zone: u8)
    requires
        in_order(zone_keys(items), items, after),
    ensures
        after.contains(zone) == items.contains(zone),
{
    let keys = zone_keys(items);
    if items.contains(zone) {
        let i = choose|i: int| 0 <= i < items.len() && items[i] == zone;
        ranks_are_few(keys, everyone(keys.len()), i, keys.len() as int);
        assert(after[rank(keys, everyone(keys.len()), i)] == items[i]);
    }
    if after.contains(zone) {
        let r = choose|r: int| 0 <= r < after.len() && after[r] == zone;
        let i = every_place_is_taken(keys, r);
        assert(items[i] == after[r]);
    }
}

proof fn full_selection(selected: Seq<u8>, all: Seq<u8>, zone: u8)
    requires
        selected.no_duplicates(),
        all.no_duplicates(),
        selected.len() == all.len(),
        forall|z: u8| selected.contains(z) ==> #[trigger] all.contains(z),
        all.contains(zone),
    ensures
        selected.contains(zone),
{
    selected.unique_seq_to_set();
    all.unique_seq_to_set();
    assert(selected.to_set().subset_of(all.to_set())) by {
        assert forall|z: u8| selected.to_set().contains(z) implies all.to_set().contains(z) by {
            assert(selected.contains(z));
            assert(all.contains(z));
        }
    }
    vstd::set_lib::lemma_subset_equality(selected.to_set(), all.to_set());
    assert(all.to_set().contains(zone));
    assert(selected.to_set().contains(zone));
}

/// Whether a zone of a device is lit.
pub open spec fn shines(lighting: Lighting, zone: u8) -> bool {
    lighting.zones@.len() == 0 || exists|i: int|
        0 <= i < lighting.zones@.len() && #[trigger] lighting.zones@[i] == zone
}

/// A click on a zone of a device flips it, unless it is the last one that is
/// lit; every other zone stays as it is, and so does the rest of the lighting.
pub proof fn a_click_flips_one_zone(
    lighting: &mut Lighting,
    info: &LightingInfo,
    zone: u8,
    other: u8,
)
    requires
        call_ensures(toggle_zone, (lighting, info, zone), ()),
        info.zones@.no_duplicates(),
        info.zones@.contains(zone),
        info.zones@.contains(other),
        old(lighting).zones@.no_duplicates(),
        forall|z: u8|
            old(lighting).zones@.contains(z) ==> #[trigger] info.zones@.contains(z),
        old(lighting).zones@.len() < info.zones@.len() || info.zones@.len() == 0,
    ensures
        other != zone ==> shines(*final(lighting), other) == shines(*old(lighting), other),
        !shines(*old(lighting), zone) ==> shines(*final(lighting), zone),
        shines(*old(lighting), zone) && other != zone && shines(*old(lighting), other) ==> !shines(
            *final(lighting),
            zone,
        ),
        final(lighting).enabled == old(lighting).enabled,
        final(lighting).color == old(lighting).color,
        final(lighting).brightness == old(lighting).brightness,
        final(lighting).speed == old(lighting).speed,
        final(lighting).effect == old(lighting).effect,
{
    let all = info.zones@;
    let lit = lit_zones(*old(lighting), all);
    let selected = choose|selected: Seq<u8>|
        #![trigger flipped(lit, zone, selected)]
        flipped(lit, zone, selected) && kept_zones(selected, all.len()) == final(lighting).zones@;
    zone_stands(lit, zone, 0);
    assert(lit.no_duplicates());
    assert(forall|z: u8| lit.contains(z) ==> #[trigger] all.contains(z));
    assert(shines(*old(lighting), zone) == lit.contains(zone));
    assert(shines(*old(lighting), other) == lit.contains(other));
    match zone_at(lit, zone, 0) {
        Some(at) => {
            if lit.len() > 1 {
                assert(selected == lit.remove(at));
                assert forall|z: u8| z != zone implies selected.contains(z) == lit.contains(z) by {
                    if lit.contains(z) {
                        let i = choose|i: int| 0 <= i < lit.len() && lit[i] == z;
                        if i < at {
                            assert(selected[i] == z);
                        } else {
                            assert(selected[i - 1] == z);
                        }
                    }
                    if selected.contains(z) {
                        let i = choose|i: int| 0 <= i < selected.len() && selected[i] == z;
                        if i < at {
                            assert(lit[i] == z);
                        } else {
                            assert(lit[i + 1] == z);
                        }
                    }
                }
                assert(!selected.contains(zone)) by {
                    if selected.contains(zone) {
                        let i = choose|i: int| 0 <= i < selected.len() && selected[i] == zone;
                        if i < at {
                            assert(lit[i] == zone && lit[at] == zone);
                        } else {
                            assert(lit[i + 1] == zone && lit[at] == zone);
                        }
                    }
                }
                assert(selected.len() < all.len());
                assert(final(lighting).zones@ == selected);
                assert(shines(*final(lighting), other) == selected.contains(other));
                assert(shines(*final(lighting), zone) == selected.contains(zone));
            } else {
                assert(selected == lit);
                if lit.contains(other) && other != zone {
                    let i = choose|i: int| 0 <= i < lit.len() && lit[i] == other;
                    assert(lit[0] == other && lit[0] == zone);
                }
                if selected.len() == all.len() {
                    let i = choose|i: int| 0 <= i < all.len() && all[i] == other;
                    let k = choose|k: int| 0 <= k < all.len() && all[k] == zone;
                    assert(i == k);
                } else {
                    assert(shines(*final(lighting), other) == selected.contains(other));
                }
            }
        },
        None => {
            let items = lit.push(zone);
            arranged_holds(items, selected, other);
            arranged_holds(items, selected, zone);
            assert(items[lit.len() as int] == zone);
            assert(items.contains(zone));
            assert(items.contains(other) == (lit.contains(other) || other == zone)) by {
                if lit.contains(other) {
                    let i = choose|i: int| 0 <= i < lit.len() && lit[i] == other;
                    assert(items[i] == other);
                }
                if items.contains(other) && other != zone {
                    let i = choose|i: int| 0 <= i < items.len() && items[i] == other;
                    assert(lit[i] == other);
                }
            }
            if selected.len() == all.len() {
                assert(items.no_duplicates());
                assert forall|z: u8| items.contains(z) implies #[trigger] all.contains(z) by {
                    let i = choose|i: int| 0 <= i < items.len() && items[i] == z;
                    if i < lit.len() {
                        assert(lit.contains(lit[i]));
                    }
                }
                full_selection(items, all, other);
            } else {
                assert(shines(*final(lighting), other) == selected.contains(other));
                assert(shines(*final(lighting), zone) == selected.contains(zone));
            }
        },
    }
}

proof fn effect_is_first(
    prefabs: Seq<LightingPrefab>,
    effect: LightingEffect,
    from: int,
    i: int,
)
    requires
        0 <= from <= i <= prefabs.len(),
        forall|k: int| from <= k < i ==> (#[trigger] prefabs[k]).effect != effect,
        i < prefabs.len() ==> prefabs[i].effect == effect,
    ensures
        i < prefabs.len() ==> selected_effect(prefabs, effect, from) == Some(prefabs[i]),
        i == prefabs.len() ==> selected_effect(prefabs, effect, from) == if prefabs.len() > 0 {
            Some(prefabs[0])
        } else {
            None
        },
    decreases i - from,
{
    if from < i {
        assert(prefabs[from].effect != effect);
        effect_is_first(prefabs, effect, from + 1, i);
    }
}

/// The controls are those of the effect in use; where the device does not offer
/// it, those of the first that it offers.
pub proof fn controls_are_those_of_the_effect_in_use(
    info: &LightingInfo,
    effect: LightingEffect,
    asks_for_screen: bool,
    prefab: Option<LightingPrefab>,
    controls: LightingControls,
    i: int,
    s: int,
)
    requires
        call_ensures(selected_prefab, (&info.prefabs, effect), prefab),
        call_ensures(lighting_controls, (Some(info), effect, asks_for_screen), controls),
        0 <= i <= info.prefabs@.len(),
        forall|k: int| 0 <= k < i ==> (#[trigger] info.prefabs@[k]).effect != effect,
        i < info.prefabs@.len() ==> info.prefabs@[i].effect == effect,
    ensures
        i < info.prefabs@.len() ==> prefab == Some(info.prefabs@[i]),
        i == info.prefabs@.len() && i > 0 ==> prefab == Some(info.prefabs@[0]),
        info.prefabs@.len() == 0 ==> prefab is None && !controls.effects && !controls.colors
            && !controls.speed && !controls.brightness,
        prefab matches Some(prefab) ==> controls.effects && controls.colors == prefab.has_color
            && controls.speed == prefab.has_speed && controls.brightness == prefab.has_brightness,
        controls.zones <==> info.zones@.len() >= 2,
        controls.screen_recording_hint ==> asks_for_screen,
        asks_for_screen && 0 <= s < info.prefabs@.len() && info.prefabs@[s].effect is ScreenSampler
            ==> controls.screen_recording_hint,
{
    effect_is_first(info.prefabs@, effect, 0, i);
}

/// A device whose effects are not known has the switch alone.
pub proof fn an_unknown_device_has_no_controls(
    effect: LightingEffect,
    asks_for_screen: bool,
    controls: LightingControls,
)
    requires
        call_ensures(lighting_controls, (None::<&LightingInfo>, effect, asks_for_screen), controls),
    ensures
        !controls.effects,
        !controls.screen_recording_hint,
        !controls.colors,
        !controls.speed,
        !controls.brightness,
        !controls.zones,
{
}

/// A slider is moved exactly where its value changed from elsewhere.
pub proof fn sliders_follow_the_lighting(
    panel: &mut LightingPanel,
    lighting: &Lighting,
    moves: SliderMoves,
)
    requires
        call_ensures(LightingPanel::sync_sliders, (panel, lighting), moves),
    ensures
        moves.brightness is Some <==> lighting.brightness != old(panel).last_brightness,
        moves.brightness matches Some(to) ==> to == lighting.brightness,
        moves.speed is Some <==> lighting.speed != old(panel).last_speed,
        moves.speed matches Some(to) ==> to == lighting.speed,
        final(panel).last_brightness == lighting.brightness,
        final(panel).last_speed == lighting.speed,
        final(panel).preview_t == old(panel).preview_t,
{
}

/// Whether `color` has these channels, from the highest byte down.
pub open spec fn has_channels(color: int, red: int, green: int, blue: int) -> bool {
    color == 65_536 * red + 256 * green + blue && 0 <= red < 256 && 0 <= green < 256 && 0 <= blue
        < 256
}

/// Whether `part` is a channel at an amount in millionths, rounded down.
pub open spec fn at_amount(part: int, channel: int, amount: int) -> bool {
    1_000_000 * part <= channel * amount < 1_000_000 * (part + 1)
}

proof fn amounts(channel: int, amount: int)
    requires
        0 <= channel <= 255,
        0 <= amount <= 1_000_000,
    ensures
        at_amount(
            crate::features::lighting::preview::scaled(channel, amount),
            channel,
            amount,
        ),
        0 <= crate::features::lighting::preview::scaled(channel, amount) <= channel,
{
    let product = channel * amount;
    assert(0 <= product <= channel * 1_000_000) by (nonlinear_arith)
        requires
            product == channel * amount,
            0 <= channel,
            0 <= amount <= 1_000_000,
    ;
}

/// Each channel of a dimmed color is its share of the amount, rounded down; more
/// than all of it is all of it.
pub proof fn a_dimmed_color_keeps_its_shares(
    color: Rgb,
    amount: u32,
    shown: u32,
) -> (channels: (int, int, int))
    requires
        call_ensures(dim, (color, amount), shown),
    ensures
        has_channels(shown as int, channels.0, channels.1, channels.2),
        amount <= 1_000_000 ==> at_amount(channels.0, color.red as int, amount as int)
            && at_amount(channels.1, color.green as int, amount as int) && at_amount(
            channels.2,
            color.blue as int,
            amount as int,
        ),
        amount > 1_000_000 ==> channels == (
            color.red as int,
            color.green as int,
            color.blue as int,
        ),
{
    let part: int = if amount > 1_000_000 {
        1_000_000
    } else {
        amount as int
    };
    amounts(color.red as int, part);
    amounts(color.green as int, part);
    amounts(color.blue as int, part);
    (
        crate::features::lighting::preview::scaled(color.red as int, part),
        crate::features::lighting::preview::scaled(color.green as int, part),
        crate::features::lighting::preview::scaled(color.blue as int, part),
    )
}

/// The rainbow goes from red by yellow, green, cyan, blue and magenta back to
/// red: in each sixth of the way one channel is full, one is out, and the third
/// rises or falls with the phase.
pub proof fn the_rainbow_goes_round(phase: u32, color: u32) -> (channels: (int, int, int))
    requires
        call_ensures(hue, (phase,), color),
        phase < 1_000_000,
    ensures
        has_channels(color as int, channels.0, channels.1, channels.2),
        6 * phase < 1_000_000 ==> channels.0 == 255 && channels.2 == 0 && at_amount(
            channels.1,
            255,
            6 * phase,
        ),
        1_000_000 <= 6 * phase < 2_000_000 ==> channels.1 == 255 && channels.2 == 0 && at_amount(
            channels.0,
            255,
            2_000_000 - 6 * phase,
        ),
        2_000_000 <= 6 * phase < 3_000_000 ==> channels.1 == 255 && channels.0 == 0 && at_amount(
            channels.2,
            255,
            6 * phase - 2_000_000,
        ),
        3_000_000 <= 6 * phase < 4_000_000 ==> channels.2 == 255 && channels.0 == 0 && at_amount(
            channels.1,
            255,
            4_000_000 - 6 * phase,
        ),
        4_000_000 <= 6 * phase < 5_000_000 ==> channels.2 == 255 && channels.1 == 0 && at_amount(
            channels.0,
            255,
            6 * phase - 4_000_000,
        ),
        5_000_000 <= 6 * phase ==> channels.0 == 255 && channels.1 == 0 && at_amount(
            channels.2,
            255,
            6_000_000 - 6 * phase,
        ),
{
    let wrapped = (phase as int % 1_000_000) * 6;
    let sector = wrapped / 1_000_000;
    let frac = wrapped % 1_000_000;
    assert(wrapped == 6 * phase);
    amounts(255, frac);
    amounts(255, 1_000_000 - frac);
    let up = crate::features::lighting::preview::scaled(255, frac);
    let down = crate::features::lighting::preview::scaled(255, 1_000_000 - frac);
    if sector == 0 {
        (255, up, 0)
    } else if sector == 1 {
        (down, 255, 0)
    } else if sector == 2 {
        (0, 255, up)
    } else if sector == 3 {
        (0, down, 255)
    } else if sector == 4 {
        (up, 0, 255)
    } else {
        (255, 0, down)
    }
}

/// A still effect shows its color, a breathing one its color at the swell, and
/// one of the rainbow the rainbow at its phase.
pub proof fn samples_show_their_effect(
    effect: LightingEffect,
    phase: u32,
    swell: u32,
    color: Rgb,
    shown: u32,
    swelled: u32,
    rainbow: u32,
)
    requires
        phase < 1_000_000,
        swell <= 1_000_000,
        call_ensures(preview_rgb, (effect, phase, swell, color), shown),
        call_ensures(dim, (color, swell), swelled),
        call_ensures(hue, (phase,), rainbow),
    ensures
        effect is Solid || effect is LightOnPress || effect is EchoPress ==> has_channels(
            shown as int,
            color.red as int,
            color.green as int,
            color.blue as int,
        ),
        effect is ColorCycle || effect is ColorWave || effect is SpectrumPulse || effect is Neon
            || effect is Ocean ==> shown == rainbow,
        effect is Breathing || effect is Pulsar || effect is Ripple || effect is SmoothWave
            || effect is Tide ==> shown == swelled,
        effect is Starlight || effect is SmoothStars || effect is OuterSpace ==> shown
            == 0x00ff_ffff || shown == 0x0008_1020,
        effect is RedWhiteBlue ==> (3 * phase < 1_000_000 ==> shown == 0x00c4_1e3a) && (1_000_000
            <= 3 * phase < 2_000_000 ==> shown == 0x00ff_ffff) && (2_000_000 <= 3 * phase ==> shown
            == 0x0000_52a5),
{
    amounts(color.red as int, 1_000_000);
    amounts(color.green as int, 1_000_000);
    amounts(color.blue as int, 1_000_000);
}

/// The phase moves on by a twenty-fifth and begins anew at the end.
pub proof fn the_phase_moves_on(phase: u32, next: u32)
    requires
        phase < 1_000_000,
        call_ensures(next_phase, (phase,), next),
    ensures
        phase < 960_000 ==> next == phase + 40_000,
        phase >= 960_000 ==> next == phase - 960_000,
{
}

/// Whether a range has its ends in order and a step.
pub open spec fn proper(range: LightValueRange) -> bool {
    range.spec_min() <= range.spec_max() && range.spec_step() > 0
}

/// A value is brought into its range and onto the grid: it is the least value
/// and a number of steps, or the greatest value, and no more than half a step
/// off unless the range ends before the next step.
pub proof fn values_snap_to_the_nearest_step(range: &LightValueRange, value: u16, snapped: u16) -> (
    steps: int)
    requires
        proper(*range),
        call_ensures(LightValueRange::quantize, (range, value), snapped),
    ensures
        range.spec_min() <= snapped <= range.spec_max(),
        value <= range.spec_min() ==> snapped == range.spec_min(),
        0 <= steps,
        snapped == range.spec_max() || snapped == range.spec_min() + steps * range.spec_step(),
        range.spec_min() <= value <= range.spec_max() ==> {
            let off = snapped - value;
            &&& 2 * off <= range.spec_step()
            &&& -range.spec_step() < 2 * off || snapped == range.spec_max()
        },
        range.spec_min() <= value <= range.spec_max() && snapped < value ==> 2 * (value - snapped)
            <= range.spec_step(),
{
    let (min, max, step) = (range.spec_min(), range.spec_max(), range.spec_step());
    let inside = if value < min {
        min
    } else if value > max {
        max
    } else {
        value as int
    };
    let raised = inside - min + step / 2;
    let steps = raised / step;
    assert(steps * step <= raised < steps * step + step && 0 <= steps) by (nonlinear_arith)
        requires
            0 < step,
            0 <= raised,
            steps == raised / step,
    ;
    if value <= min {
        assert(steps == 0) by (nonlinear_arith)
            requires
                0 < step,
                steps == raised / step,
                raised == step / 2,
        ;
        assert(steps * step == 0) by (nonlinear_arith)
            requires
                steps == 0,
        ;
    }
    steps
}

/// A light that is set by hand goes on, unless the camera has it in hand; what
/// is not set stays.
pub proof fn a_light_set_by_hand_goes_on(
    settings: LightSettings,
    percent: Option<u8>,
    camera: bool,
    brightened: Option<LightSettings>,
    range: LightValueRange,
    kelvin: u16,
    warmed: LightSettings,
    auto_camera: bool,
    automated: LightSettings,
    snapped: u16,
)
    requires
        call_ensures(released_brightness, (settings, percent, camera), brightened),
        call_ensures(released_temperature, (settings, range, kelvin, camera), warmed),
        call_ensures(camera_automation, (settings, auto_camera), automated),
        call_ensures(LightValueRange::quantize, (&range, kelvin), snapped),
    ensures
        brightened is Some <==> percent is Some,
        brightened matches Some(after) ==> {
            &&& after.enabled <==> settings.enabled || !camera
            &&& Some(after.brightness_percent) == percent
            &&& after.temperature_kelvin == settings.temperature_kelvin
            &&& after.auto_camera == settings.auto_camera
        },
        warmed.enabled <==> settings.enabled || !camera,
        warmed.temperature_kelvin == Some(snapped),
        warmed.brightness_percent == settings.brightness_percent,
        warmed.auto_camera == settings.auto_camera,
        automated.auto_camera == auto_camera,
        automated.enabled == settings.enabled,
        automated.brightness_percent == settings.brightness_percent,
        automated.temperature_kelvin == settings.temperature_kelvin,
{
}

/// A light's dot is lit while it is online and on, and its line says which of
/// the two it is not.
pub proof fn a_lights_status_says_what_it_is(
    online: bool,
    enabled: bool,
    status: (&'static str, bool),
)
    requires
        call_ensures(light_status, (online, enabled), status),
    ensures
        status.1 <==> online && enabled,
        !online ==> status.0@ == "device.offline"@,
        online && enabled ==> status.0@ == "common.on"@,
        online && !enabled ==> status.0@ == "common.off"@,
{
}

/// The sliders of a light are made anew only for another light or another range,
/// and then stand where the settings are.
pub proof fn sliders_are_made_for_their_light(
    panel: &mut LightPanel,
    key: Option<&str>,
    capabilities: LightCapabilities,
    settings: LightSettings,
    native: Option<u16>,
)
    requires
        call_ensures(
            LightPanel::ensure_sliders,
            (panel, key, Some(capabilities), settings, native),
            (),
        ),
    ensures
        final(panel).brightness is Some <==> capabilities.brightness is Some,
        final(panel).temperature is Some <==> capabilities.temperature is Some,
        final(panel).brightness matches Some(slider) ==> Some(slider.range)
            == capabilities.brightness,
        final(panel).temperature matches Some(slider) ==> Some(slider.range)
            == capabilities.temperature,
        crate::text::owned_view(old(panel).device_key) != crate::text::optional_view(key) ==> (
        final(panel).brightness matches Some(slider) ==> slider.value == match native {
            Some(native) => native as int,
            None => slider.range.spec_min(),
        }),
        crate::text::owned_view(final(panel).device_key) == crate::text::optional_view(key),
        final(panel).last_brightness == old(panel).last_brightness,
        final(panel).last_temperature == old(panel).last_temperature,
{
}

/// A slider follows its setting where that changed, and stays where it was
/// otherwise.
pub proof fn light_sliders_follow_their_settings(
    panel: &mut LightPanel,
    settings: LightSettings,
    native: Option<u16>,
)
    requires
        call_ensures(LightPanel::follow, (panel, settings, native), ()),
    ensures
        settings.brightness_percent == old(panel).last_brightness ==> final(panel).brightness
            == old(panel).brightness,
        settings.temperature_kelvin == old(panel).last_temperature ==> final(panel).temperature
            == old(panel).temperature,
        settings.brightness_percent != old(panel).last_brightness ==> (old(
            panel).brightness matches Some(slider) ==> native matches Some(native)
            ==> final(panel).brightness matches Some(after) && after.value == native
            && after.range == slider.range),
        final(panel).last_brightness == settings.brightness_percent,
        final(panel).last_temperature == settings.temperature_kelvin,
        final(panel).device_key == old(panel).device_key,
{
}

/// The panel of a light shows the switch of one that has it, and a slider for
/// each range that the light has.
pub proof fn a_light_shows_what_it_can_do(
    panel: &LightPanel,
    capabilities: Option<LightCapabilities>,
    settings: LightSettings,
    native: Option<u16>,
    online: bool,
    enabled: bool,
    view: LightPanelView,
)
    requires
        call_ensures(
            light_panel_view,
            (panel, capabilities, settings, native, online, enabled),
            view,
        ),
    ensures
        view.power <==> (capabilities matches Some(capabilities) && capabilities.power),
        view.status.1 <==> online && enabled,
        view.brightness is Some <==> panel.brightness is Some,
        view.temperature is Some <==> panel.temperature is Some,
{
}

} // verus!
