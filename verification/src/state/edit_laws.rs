//! What edits of the selected device's settings change, and what they leave.

use crate::device::DeviceRoute;
use crate::hid::{
    Lighting, LightingEffect, OnboardLed, OnboardLedMode, ReportRateHz, ScrollResolution,
};
use crate::state::action_ring::{
    ActionRingConfig, ActionRingLayout, ActionRingSlot, RingDefaults,
};
use crate::state::config::{DeviceConfig, LinkLighting};
use crate::state::event::{Panel, StateEvent};
use crate::state::lighting::{effect_from_onboard, lighting_from_onboard};
use crate::state::load::Load;
use crate::state::{AppState, Save, SaveOutcome};
use crate::text::{optional_view, owned_view};
use vstd::prelude::*;

verus! {

/// The selected device is the one at `i`, a physical one.
pub open spec fn edits(state: AppState, i: usize) -> bool {
    &&& state.devices.selected == Some(i)
    &&& i < state.devices.records@.len()
    &&& state.devices.records@[i as int].persistent
}

/// The settings key of the device at `i`.
pub open spec fn key_of(state: AppState, i: usize) -> Seq<char> {
    state.devices.records@[i as int].config_key@
}

/// Inverting the wheel in the default profile changes the device's own setting;
/// in an application's profile it changes that application's alone.
pub proof fn inversion_belongs_to_its_profile(
    state: &mut AppState,
    invert: bool,
    save: Option<Save>,
    i: usize,
    other: Seq<char>,
)
    requires
        call_ensures(AppState::commit_invert_scroll, (state, invert), save),
        edits(*old(state), i),
        old(state).devices.records@[i as int].capabilities matches Some(c) && c.scroll_inversion,
    ensures
        save matches Some(save) && save.reload,
        ({
            let key = key_of(*old(state), i);
            let now = final(state).config.devices@[key];
            &&& final(state).config.devices@.contains_key(key)
            &&& old(state).editing_app is None ==> now.invert_scroll == invert
            &&& old(state).editing_app matches Some(app) ==> {
                &&& now.per_app_settings@.contains_key(app@)
                &&& now.per_app_settings@[app@].invert_scroll == Some(invert)
            }
        }),
        ({
            let key = key_of(*old(state), i);
            let was = old(state).config.devices@[key];
            let now = final(state).config.devices@[key];
            old(state).config.devices@.contains_key(key) ==> {
                &&& old(state).editing_app is None ==> now.per_app_settings@
                    == was.per_app_settings@
                &&& old(state).editing_app is Some ==> now.invert_scroll == was.invert_scroll
                &&& old(state).editing_app matches Some(app) ==> app@ != other
                    ==> now.per_app_settings@.contains_key(other)
                    == was.per_app_settings@.contains_key(other)
                &&& old(state).editing_app matches Some(app) ==> app@ != other
                    && was.per_app_settings@.contains_key(other) ==> now.per_app_settings@[other]
                    == was.per_app_settings@[other]
                &&& old(state).editing_app matches Some(app)
                    ==> was.per_app_settings@.contains_key(app@)
                    ==> now.per_app_settings@[app@].scroll_resolution
                    == was.per_app_settings@[app@].scroll_resolution
                    && now.per_app_settings@[app@].report_rate
                    == was.per_app_settings@[app@].report_rate
                &&& now.links@ == was.links@
                &&& now.scroll_resolution == was.scroll_resolution
                &&& now.report_rate == was.report_rate
                &&& now.lighting == was.lighting
                &&& now.smartshift == was.smartshift
                &&& now.identity == was.identity
                &&& now.action_ring == was.action_ring
            }
        }),
        other != key_of(*old(state), i) && old(state).config.devices@.contains_key(other)
            ==> final(state).config.devices@.contains_key(other)
            && final(state).config.devices@[other] == old(state).config.devices@[other],
        final(state).devices == old(state).devices,
{
    let key = key_of(*old(state), i);
    others_stay(old(state).config.devices@, final(state).config.devices@, key, other);
}

proof fn others_stay(
    before: Map<Seq<char>, DeviceConfig>,
    after: Map<Seq<char>, DeviceConfig>,
    key: Seq<char>,
    other: Seq<char>,
)
    requires
        after.remove(key) == before.remove(key),
    ensures
        other != key ==> after.contains_key(other) == before.contains_key(other),
        other != key && before.contains_key(other) ==> after[other] == before[other],
{
    assert(before.remove(key).contains_key(other) == after.remove(key).contains_key(other));
    assert(before.remove(key)[other] == after.remove(key)[other]);
    if other != key {
        assert(before.remove(key)[other] == before[other]);
        assert(after.remove(key)[other] == after[other]);
        assert(before.remove(key).dom().contains(other) == before.dom().contains(other));
        assert(after.remove(key).dom().contains(other) == after.dom().contains(other));
    }
}

/// A device that cannot invert its wheel is not told to, and one without the
/// hi-res wheel gets no resolution.
pub proof fn what_the_wheel_lacks_is_not_set(
    state: &mut AppState,
    other: &mut AppState,
    invert: bool,
    resolution: Option<ScrollResolution>,
    inverted: Option<Save>,
    resolved: Option<Save>,
    i: usize,
)
    requires
        call_ensures(AppState::commit_invert_scroll, (state, invert), inverted),
        call_ensures(AppState::commit_scroll_resolution, (other, resolution), resolved),
        old(state).devices.selected == Some(i),
        old(other).devices.selected == Some(i),
        i < old(state).devices.records@.len(),
        i < old(other).devices.records@.len(),
    ensures
        ({
            let record = old(state).devices.records@[i as int];
            !record.persistent || record.capabilities is None || (record.capabilities matches Some(
                c,
            ) && !c.scroll_inversion) ==> inverted is None && *final(state) == *old(state)
        }),
        ({
            let record = old(other).devices.records@[i as int];
            !record.persistent || record.capabilities is None || (record.capabilities matches Some(
                c,
            ) && !c.hires_wheel) ==> resolved is None && *final(other) == *old(other)
        }),
{
}

/// Setting the resolution in the default profile changes the device's own; in an
/// application's profile it changes that application's alone.
pub proof fn resolution_belongs_to_its_profile(
    state: &mut AppState,
    resolution: Option<ScrollResolution>,
    save: Option<Save>,
    i: usize,
    other: Seq<char>,
)
    requires
        call_ensures(AppState::commit_scroll_resolution, (state, resolution), save),
        edits(*old(state), i),
        old(state).devices.records@[i as int].capabilities matches Some(c) && c.hires_wheel,
    ensures
        save matches Some(save) && save.reload,
        ({
            let key = key_of(*old(state), i);
            let now = final(state).config.devices@[key];
            &&& final(state).config.devices@.contains_key(key)
            &&& old(state).editing_app is None ==> now.scroll_resolution == resolution
            &&& old(state).editing_app matches Some(app) ==> {
                &&& now.per_app_settings@.contains_key(app@)
                &&& now.per_app_settings@[app@].scroll_resolution == resolution
            }
        }),
        ({
            let key = key_of(*old(state), i);
            let was = old(state).config.devices@[key];
            let now = final(state).config.devices@[key];
            old(state).config.devices@.contains_key(key) ==> {
                &&& old(state).editing_app is None ==> now.per_app_settings@
                    == was.per_app_settings@
                &&& old(state).editing_app is Some ==> now.scroll_resolution
                    == was.scroll_resolution
                &&& old(state).editing_app matches Some(app) ==> app@ != other
                    && was.per_app_settings@.contains_key(other) ==> now.per_app_settings@[other]
                    == was.per_app_settings@[other]
                &&& old(state).editing_app matches Some(app)
                    ==> was.per_app_settings@.contains_key(app@)
                    ==> now.per_app_settings@[app@].invert_scroll
                    == was.per_app_settings@[app@].invert_scroll
                    && now.per_app_settings@[app@].report_rate
                    == was.per_app_settings@[app@].report_rate
                &&& now.links@ == was.links@
                &&& now.invert_scroll == was.invert_scroll
                &&& now.report_rate == was.report_rate
                &&& now.lighting == was.lighting
                &&& now.smartshift == was.smartshift
                &&& now.identity == was.identity
                &&& now.action_ring == was.action_ring
            }
        }),
        other != key_of(*old(state), i) && old(state).config.devices@.contains_key(other)
            ==> final(state).config.devices@.contains_key(other)
            && final(state).config.devices@[other] == old(state).config.devices@[other],
{
    let key = key_of(*old(state), i);
    others_stay(old(state).config.devices@, final(state).config.devices@, key, other);
}

/// What holds for the wheel: the application's own setting, or else the link's,
/// or else the device's.
pub proof fn the_nearest_setting_holds(
    device: &DeviceConfig,
    route: &str,
    app: Option<&str>,
    inverted: bool,
    resolution: Option<ScrollResolution>,
)
    requires
        call_ensures(DeviceConfig::effective_invert_scroll_for_app, (device, route, app), inverted),
        call_ensures(
            DeviceConfig::effective_scroll_resolution_for_app,
            (device, route, app),
            resolution,
        ),
    ensures
        ({
            let own = app is Some && device.per_app_settings@.contains_key(app->0@);
            let link = device.links@.contains_key(route@);
            let by_app = device.per_app_settings@[app->0@];
            let by_link = device.links@[route@].overrides;
            &&& own && by_app.invert_scroll is Some ==> Some(inverted) == by_app.invert_scroll
            &&& !(own && by_app.invert_scroll is Some) && link && by_link.invert_scroll is Some
                ==> Some(inverted) == by_link.invert_scroll
            &&& !(own && by_app.invert_scroll is Some) && !(link && by_link.invert_scroll is Some)
                ==> inverted == device.invert_scroll
            &&& own && by_app.scroll_resolution is Some ==> resolution == by_app.scroll_resolution
            &&& !(own && by_app.scroll_resolution is Some) && link
                && by_link.scroll_resolution is Some ==> resolution == by_link.scroll_resolution
            &&& !(own && by_app.scroll_resolution is Some) && !(link
                && by_link.scroll_resolution is Some) ==> resolution == device.scroll_resolution
        }),
{
}

/// The wheel mode that is written to the selected device is what holds for it in
/// the open profile, as far as the device has the capability.
pub proof fn the_wheel_is_written_as_configured(
    state: &AppState,
    mode: (Option<ScrollResolution>, Option<bool>),
    inverted: bool,
    resolution: Option<ScrollResolution>,
    shown: bool,
    shown_resolution: Option<ScrollResolution>,
    route: &str,
    app: Option<&str>,
    i: usize,
)
    requires
        call_ensures(AppState::configured_wheel_mode_for_editing, (state,), mode),
        call_ensures(AppState::current_invert_scroll, (state,), shown),
        call_ensures(AppState::current_scroll_resolution, (state,), shown_resolution),
        edits(*state, i),
        state.config.devices@.contains_key(key_of(*state, i)),
        route@ == state.devices.records@[i as int].route_key@,
        optional_view(app) == owned_view(state.editing_app),
        call_ensures(
            DeviceConfig::effective_invert_scroll_for_app,
            (&state.config.devices@[key_of(*state, i)], route, app),
            inverted,
        ),
        call_ensures(
            DeviceConfig::effective_scroll_resolution_for_app,
            (&state.config.devices@[key_of(*state, i)], route, app),
            resolution,
        ),
    ensures
        shown == inverted,
        shown_resolution == resolution,
        ({
            let capabilities = state.devices.records@[i as int].capabilities;
            &&& mode.0 is Some ==> mode.0 == resolution
            &&& mode.0 is None ==> resolution is None || capabilities is None || !(capabilities
                matches Some(c) && c.hires_wheel)
            &&& mode.0 is Some ==> (capabilities matches Some(c) && c.hires_wheel)
            &&& mode.1 is Some <==> (capabilities matches Some(c) && c.scroll_inversion)
            &&& mode.1 matches Some(invert) ==> invert == inverted
        }),
{
}

/// A device without settings has its wheel turned as it comes, and no resolution
/// is written.
pub proof fn without_settings_the_wheel_is_left_alone(
    state: &AppState,
    mode: (Option<ScrollResolution>, Option<bool>),
    shown: bool,
    i: usize,
)
    requires
        call_ensures(AppState::configured_wheel_mode_for_editing, (state,), mode),
        call_ensures(AppState::current_invert_scroll, (state,), shown),
    ensures
        state.devices.selected is None ==> !shown && mode.0 is None && mode.1 is None,
        edits(*state, i) && !state.config.devices@.contains_key(key_of(*state, i)) ==> !shown
            && mode.0 is None && mode.1 != Some(true),
        state.devices.selected == Some(i) && i < state.devices.records@.len()
            && !state.devices.records@[i as int].persistent ==> !shown && mode.0 is None
            && mode.1 is None,
{
}

/// A hi-res wheel that was measured on some other link of the device is known;
/// what was measured on the device's own link does not count.
pub proof fn other_links_count_for_the_wheel(
    state: &AppState,
    supported: bool,
    i: usize,
    route: Seq<char>,
)
    requires
        call_ensures(AppState::hires_wheel_supported_on_another_link, (state,), supported),
        state.devices.selected == Some(i),
        i < state.devices.records@.len(),
    ensures
        ({
            let record = state.devices.records@[i as int];
            let links = state.config.devices@[record.config_key@].links@;
            &&& !state.config.devices@.contains_key(record.config_key@) ==> !supported
            &&& state.config.devices@.contains_key(record.config_key@) && links.contains_key(route)
                && route != record.route_key@ && (links[route].capabilities matches Some(c)
                && c.hires_wheel) ==> supported
            &&& links.dom() == set![record.route_key@] ==> !supported
        }),
{
    let record = state.devices.records@[i as int];
    let links = state.config.devices@[record.config_key@].links@;
    if links.dom() == set![record.route_key@] && supported {
        let other = choose|other: Seq<char>| #[trigger]
            links.contains_key(other) && other != record.route_key@;
        assert(links.dom().contains(other));
        assert(set![record.route_key@].contains(other));
    }
}

/// A committed polling frequency is one that the device supports, and none that
/// it supports is nearer to the one asked for.
pub proof fn the_nearest_frequency_is_committed(
    state: &mut AppState,
    rate: ReportRateHz,
    committed: (ReportRateHz, Option<Save>),
    i: usize,
    k: int,
)
    requires
        call_ensures(AppState::commit_report_rate, (state, rate), committed),
        old(state).devices.selected == Some(i),
        i < old(state).devices.records@.len(),
    ensures
        final(state).pointer.report_rate == committed.0,
        ({
            let key = key_of(*old(state), i);
            let reads = old(state).pointer.reads.report_rate@;
            &&& reads.contains_key(key) ==> (reads[key].load matches Load::Ready(info)
                ==> info.capabilities@.contains(committed.0))
            &&& reads.contains_key(key) ==> (reads[key].load matches Load::Ready(info) ==> 0 <= k
                < info.capabilities@.len() ==> {
                let near = if committed.0 <= rate {
                    rate - committed.0
                } else {
                    committed.0 - rate
                };
                let far = if info.capabilities@[k] <= rate {
                    rate - info.capabilities@[k]
                } else {
                    info.capabilities@[k] - rate
                };
                near <= far
            })
            &&& !reads.contains_key(key) || !(reads[key].load is Ready) ==> committed.0 == rate
        }),
{
}

/// A committed polling frequency is stored in the open profile of a physical
/// device, and in no other.
pub proof fn a_frequency_belongs_to_its_profile(
    state: &mut AppState,
    rate: ReportRateHz,
    committed: (ReportRateHz, Option<Save>),
    i: usize,
    other: Seq<char>,
)
    requires
        call_ensures(AppState::commit_report_rate, (state, rate), committed),
        edits(*old(state), i),
    ensures
        committed.1 matches Some(save) && save.reload,
        ({
            let key = key_of(*old(state), i);
            let now = final(state).config.devices@[key];
            &&& final(state).config.devices@.contains_key(key)
            &&& old(state).editing_app is None ==> now.report_rate == Some(committed.0)
            &&& old(state).editing_app matches Some(app) ==> {
                &&& now.per_app_settings@.contains_key(app@)
                &&& now.per_app_settings@[app@].report_rate == Some(committed.0)
            }
        }),
        ({
            let key = key_of(*old(state), i);
            let was = old(state).config.devices@[key];
            let now = final(state).config.devices@[key];
            old(state).config.devices@.contains_key(key) ==> {
                &&& old(state).editing_app is None ==> now.per_app_settings@
                    == was.per_app_settings@
                &&& old(state).editing_app is Some ==> now.report_rate == was.report_rate
                &&& old(state).editing_app matches Some(app) ==> app@ != other
                    && was.per_app_settings@.contains_key(other) ==> now.per_app_settings@[other]
                    == was.per_app_settings@[other]
                &&& now.links@ == was.links@
                &&& now.invert_scroll == was.invert_scroll
                &&& now.scroll_resolution == was.scroll_resolution
                &&& now.lighting == was.lighting
                &&& now.smartshift == was.smartshift
                &&& now.identity == was.identity
                &&& now.action_ring == was.action_ring
            }
        }),
        other != key_of(*old(state), i) && old(state).config.devices@.contains_key(other)
            ==> final(state).config.devices@.contains_key(other)
            && final(state).config.devices@[other] == old(state).config.devices@[other],
{
    let key = key_of(*old(state), i);
    others_stay(old(state).config.devices@, final(state).config.devices@, key, other);
}

/// A frequency whose settings were saved is shown as the device's own and sent
/// over its route; one that could not be saved is neither.
pub proof fn only_a_saved_frequency_is_sent(
    state: &mut AppState,
    rate: ReportRateHz,
    outcome: SaveOutcome,
    sent: Option<(Option<DeviceRoute>, bool)>,
    i: usize,
)
    requires
        call_ensures(AppState::finish_report_rate, (state, rate, outcome), sent),
        old(state).devices.selected == Some(i),
        i < old(state).devices.records@.len(),
    ensures
        ({
            let record = old(state).devices.records@[i as int];
            &&& sent is None <==> record.persistent && (outcome is Failed)
            &&& sent matches Some(sent) ==> sent.0 == record.route
            &&& sent is None ==> final(state).pointer == old(state).pointer
            &&& sent is None ==> (outcome matches SaveOutcome::Failed { persisted }
                && final(state).config == persisted)
        }),
        ({
            let key = key_of(*old(state), i);
            let was = old(state).pointer.reads.report_rate@;
            let now = final(state).pointer.reads.report_rate@;
            sent is Some && was.contains_key(key) && was[key].load is Ready ==> now.contains_key(
                key,
            ) && (now[key].load matches Load::Ready(info) && info.current == rate)
        }),
{
    let key = key_of(*old(state), i);
    let was = old(state).pointer.reads.report_rate@;
    let now = final(state).pointer.reads.report_rate@;
    if sent is Some && was.contains_key(key) && was[key].load is Ready {
        assert(was.dom().contains(key));
        assert(now.dom().contains(key));
    }
}

/// A frequency that was read is shown if it is the selected device's.
pub proof fn the_selected_frequency_is_shown(
    state: &mut AppState,
    key: &str,
    i: usize,
)
    requires
        call_ensures(AppState::apply_report_rate_read, (state, key), ()),
        old(state).devices.selected == Some(i),
        i < old(state).devices.records@.len(),
    ensures
        ({
            let own = key_of(*old(state), i);
            let reads = old(state).pointer.reads.report_rate@;
            &&& own == key@ && reads.contains_key(own) ==> (reads[own].load matches Load::Ready(
                info,
            ) ==> final(state).pointer.report_rate == info.current)
            &&& own != key@ ==> final(state).pointer == old(state).pointer
            &&& !reads.contains_key(own) || !(reads[own].load is Ready) ==> final(state).pointer
                == old(state).pointer
        }),
        final(state).config == old(state).config,
        final(state).devices == old(state).devices,
{
}

/// The effect that shows an onboard mode, where there is one.
pub proof fn an_onboard_mode_is_shown_by_its_effect(
    mode: OnboardLedMode,
    effect: Option<LightingEffect>,
)
    requires
        call_ensures(effect_from_onboard, (mode,), effect),
    ensures
        effect == Some(LightingEffect::Solid) <==> mode == OnboardLedMode::Solid,
        effect == Some(LightingEffect::ColorCycle) <==> mode == OnboardLedMode::Cycle,
        effect == Some(LightingEffect::Breathing) <==> mode == OnboardLedMode::Breathing,
        effect is None <==> mode == OnboardLedMode::Off || mode == OnboardLedMode::Other,
{
}

/// Lighting that shows an onboard LED has its color, is on unless the LED is
/// off, and is full where no brightness was reported.
pub proof fn an_onboard_led_is_shown(
    led: OnboardLed,
    default: &Lighting,
    lighting: Lighting,
    effect: Option<LightingEffect>,
)
    requires
        call_ensures(lighting_from_onboard, (led, default), lighting),
        call_ensures(effect_from_onboard, (led.mode,), effect),
    ensures
        lighting@.color == led.color,
        lighting@.enabled <==> led.mode != OnboardLedMode::Off,
        led.brightness == 0 ==> lighting@.brightness == 100,
        led.brightness > 0 ==> lighting@.brightness == led.brightness,
        effect matches Some(effect) ==> lighting@.effect == effect,
        effect is None ==> lighting@.effect == default@.effect,
        lighting@.speed == default@.speed,
        lighting@.zones == default@.zones,
{
}

/// The lighting stored for a device on a link: the link's own, none where the
/// link unsets it, or else the device's. A probe has none.
pub proof fn a_link_may_have_its_own_lighting(
    state: &AppState,
    key: &str,
    transient: bool,
    route: &str,
    lighting: Option<Lighting>,
    i: int,
)
    requires
        call_ensures(AppState::lighting_for, (state, key, transient, route), lighting),
    ensures
        transient ==> lighting is None,
        !state.config.devices@.contains_key(key@) ==> lighting is None,
        0 <= i < state.devices.records@.len() && state.devices.records@[i].config_key@ == key@
            && !state.devices.records@[i].persistent ==> lighting is None,
        ({
            let device = state.config.devices@[key@];
            let link = device.links@.contains_key(route@);
            let by_link = device.links@[route@].overrides.lighting;
            &&& link && by_link is Unset ==> lighting is None
            &&& link && lighting is Some ==> (by_link matches LinkLighting::Own(own)
                ==> lighting->0@ == own@)
            &&& lighting is Some && !(link && by_link is Own) ==> (device.lighting matches Some(
                stored,
            ) && stored@ == lighting->0@)
        }),
        !transient && state.config.devices@.contains_key(key@) && (forall|k: int|
            0 <= k < state.devices.records@.len() && (
            #[trigger] state.devices.records@[k]).config_key@ == key@
                ==> state.devices.records@[k].persistent) ==> {
            let device = state.config.devices@[key@];
            let link = device.links@.contains_key(route@);
            let by_link = device.links@[route@].overrides.lighting;
            &&& link && by_link is Own ==> lighting is Some
            &&& !(link && !(by_link is Inherited)) && device.lighting is Some ==> lighting is Some
        },
{
}

/// The lighting that is shown: what is stored for the selected device on its
/// link, or else what its first LED does, or else the default.
pub proof fn stored_lighting_comes_before_the_led(
    state: &AppState,
    default: &Lighting,
    shown: Lighting,
    key: &str,
    route: &str,
    stored: Option<Lighting>,
    led: OnboardLed,
    onboard: Lighting,
    i: usize,
)
    requires
        call_ensures(AppState::lighting, (state, default), shown),
        state.devices.selected == Some(i),
        i < state.devices.records@.len(),
        key@ == key_of(*state, i),
        route@ == state.devices.records@[i as int].route_key@,
        call_ensures(
            AppState::lighting_for,
            (state, key, !state.devices.records@[i as int].persistent, route),
            stored,
        ),
        call_ensures(lighting_from_onboard, (led, default), onboard),
    ensures
        stored matches Some(stored) ==> shown@ == stored@,
        stored is None && state.onboard_leds@.contains_key(key@)
            && state.onboard_leds@[key@]@.len() > 0 && state.onboard_leds@[key@]@[0] == led
            ==> shown@ == onboard@,
        stored is None && (!state.onboard_leds@.contains_key(key@)
            || state.onboard_leds@[key@]@.len() == 0) ==> shown@ == default@,
{
}

/// Committed lighting is stored for the selected device, and nothing else of its
/// settings or of other devices changes. The agent need not reload.
pub proof fn committed_lighting_changes_nothing_else(
    state: &mut AppState,
    lighting: &Lighting,
    save: Option<Save>,
    i: usize,
    other: Seq<char>,
)
    requires
        call_ensures(AppState::commit_lighting, (state, lighting), save),
        old(state).devices.selected == Some(i),
        i < old(state).devices.records@.len(),
    ensures
        save is Some <==> old(state).devices.records@[i as int].persistent,
        save is None ==> *final(state) == *old(state),
        save matches Some(save) ==> !save.reload,
        save is Some ==> {
            let key = key_of(*old(state), i);
            &&& final(state).config.devices@.contains_key(key)
            &&& final(state).config.devices@[key].lighting matches Some(stored) && stored@
                == lighting@
            &&& old(state).config.devices@.contains_key(key)
                ==> final(state).config.devices@[key].links@
                == old(state).config.devices@[key].links@
                && final(state).config.devices@[key].smartshift
                == old(state).config.devices@[key].smartshift
        },
        other != key_of(*old(state), i) && old(state).config.devices@.contains_key(other)
            ==> final(state).config.devices@.contains_key(other)
            && final(state).config.devices@[other] == old(state).config.devices@[other],
        final(state).pointer == old(state).pointer,
{
    let key = key_of(*old(state), i);
    if save is Some {
        others_stay(old(state).config.devices@, final(state).config.devices@, key, other);
    }
}

/// Lighting is sent over the device's route unless it should have been saved and
/// was not.
pub proof fn only_saved_lighting_is_sent(
    state: &mut AppState,
    outcome: SaveOutcome,
    route: Option<DeviceRoute>,
    i: usize,
)
    requires
        call_ensures(AppState::finish_lighting, (state, outcome), route),
        old(state).devices.selected == Some(i),
        i < old(state).devices.records@.len(),
    ensures
        ({
            let record = old(state).devices.records@[i as int];
            &&& record.persistent && outcome is Failed ==> route is None
            &&& !record.persistent || outcome is Saved ==> route == record.route
            &&& record.persistent ==> (outcome matches SaveOutcome::Failed { persisted }
                ==> final(state).config == persisted)
            &&& !record.persistent || outcome is Saved ==> *final(state) == *old(state)
        }),
{
}

/// An application without a layout of its own has the default one.
pub proof fn layouts_are_inherited(
    ring: &ActionRingConfig,
    app: Option<&str>,
    layout: ActionRingLayout,
)
    requires
        call_ensures(ActionRingConfig::effective_layout, (ring, app), layout),
    ensures
        app is None ==> layout == ring.default,
        app matches Some(app) ==> ring.per_app@.contains_key(app@) ==> layout
            == ring.per_app@[app@],
        app matches Some(app) ==> !ring.per_app@.contains_key(app@) ==> layout == ring.default,
{
}

/// A slot that is given an action does that action with its own picture, and one
/// that is emptied is empty; the other slots do what they did.
pub proof fn a_slot_does_what_was_committed(
    state: &mut AppState,
    slot: ActionRingSlot,
    action: Option<u32>,
    save: Option<Save>,
    before: ActionRingLayout,
    after: &AppState,
    layout: ActionRingLayout,
    at: usize,
    i: usize,
    k: int,
)
    requires
        call_ensures(AppState::current_action_ring_layout, (&*old(state),), before),
        call_ensures(AppState::commit_action_ring_slot, (state, slot, action), save),
        *after == *final(state),
        call_ensures(AppState::current_action_ring_layout, (after,), layout),
        call_ensures(ActionRingSlot::index, (slot,), at),
        edits(*old(state), i),
    ensures
        save matches Some(save) && save.reload,
        action matches Some(action) ==> (layout@[at as int] matches Some(entry) && entry.action
            == action && entry.custom_icon is None),
        action is None ==> layout@[at as int] is None,
        0 <= k < 8 && k != at ==> layout@[k] == before@[k],
{
    let key = key_of(*old(state), i);
    assert(before@.len() == 8);
}

/// A filled slot keeps its action when it is given a picture; an empty one stays
/// empty.
pub proof fn a_picture_keeps_the_action(
    state: &mut AppState,
    slot: ActionRingSlot,
    icon: Option<u32>,
    save: Option<Save>,
    before: ActionRingLayout,
    after: &AppState,
    layout: ActionRingLayout,
    at: usize,
    i: usize,
    k: int,
)
    requires
        call_ensures(AppState::current_action_ring_layout, (&*old(state),), before),
        call_ensures(AppState::commit_action_ring_icon, (state, slot, icon), save),
        *after == *final(state),
        call_ensures(AppState::current_action_ring_layout, (after,), layout),
        call_ensures(ActionRingSlot::index, (slot,), at),
        edits(*old(state), i),
    ensures
        save matches Some(save) && save.reload,
        before@[at as int] matches Some(entry) ==> (layout@[at as int] matches Some(edited)
            && edited.action == entry.action && edited.custom_icon == icon),
        before@[at as int] is None ==> layout@[at as int] is None,
        0 <= k < 8 && k != at ==> layout@[k] == before@[k],
{
    let key = key_of(*old(state), i);
    assert(before@.len() == 8);
}

/// An edit in an application's profile leaves the default layout and those of
/// the other applications alone.
pub proof fn layouts_belong_to_their_profile(
    state: &mut AppState,
    slot: ActionRingSlot,
    action: Option<u32>,
    save: Option<Save>,
    i: usize,
    other: Seq<char>,
)
    requires
        call_ensures(AppState::commit_action_ring_slot, (state, slot, action), save),
        edits(*old(state), i),
        old(state).config.devices@.contains_key(key_of(*old(state), i)),
    ensures
        ({
            let was = old(state).config.devices@[key_of(*old(state), i)].action_ring;
            let now = final(state).config.devices@[key_of(*old(state), i)].action_ring;
            &&& old(state).editing_app is Some ==> now.default == was.default
            &&& old(state).editing_app is None ==> now.per_app@ == was.per_app@
            &&& old(state).editing_app matches Some(app) ==> now.per_app@.contains_key(app@)
            &&& old(state).editing_app matches Some(app) ==> app@ != other
                && was.per_app@.contains_key(other) ==> now.per_app@.contains_key(other)
                && now.per_app@[other] == was.per_app@[other]
            &&& now.enabled == was.enabled
            &&& now.haptics == was.haptics
        }),
        other_settings_stay(
            old(state).config.devices@[key_of(*old(state), i)],
            final(state).config.devices@[key_of(*old(state), i)],
        ),
        other != key_of(*old(state), i) && old(state).config.devices@.contains_key(other)
            ==> final(state).config.devices@.contains_key(other)
            && final(state).config.devices@[other] == old(state).config.devices@[other],
        final(state).devices == old(state).devices,
        final(state).pointer == old(state).pointer,
{
    let key = key_of(*old(state), i);
    others_stay(old(state).config.devices@, final(state).config.devices@, key, other);
}

/// Whether two settings of a device differ in the ring alone.
pub open spec fn other_settings_stay(was: DeviceConfig, now: DeviceConfig) -> bool {
    &&& now.links@ == was.links@
    &&& now.per_app_settings@ == was.per_app_settings@
    &&& now.invert_scroll == was.invert_scroll
    &&& now.scroll_resolution == was.scroll_resolution
    &&& now.report_rate == was.report_rate
    &&& now.lighting == was.lighting
    &&& now.smartshift == was.smartshift
    &&& now.identity == was.identity
}

/// A device without settings has none of its own, and the initial ring.
pub proof fn a_new_device_has_no_settings(ring: &RingDefaults, device: DeviceConfig, app: Seq<char>)
    requires
        call_ensures(DeviceConfig::new, (ring,), device),
    ensures
        !device.links@.contains_key(app),
        !device.per_app_settings@.contains_key(app),
        !device.invert_scroll,
        device.scroll_resolution is None,
        device.report_rate is None,
        device.lighting is None,
        device.smartshift is None,
        device.identity is None,
        device.action_ring.enabled == ring.enabled,
        device.action_ring.haptics == ring.haptics,
        device.action_ring.default == ring.layout,
        !device.action_ring.per_app@.contains_key(app),
{
}

/// The ring's switches are turned one at a time, and the layouts stay.
pub proof fn switches_are_turned_one_at_a_time(
    state: &mut AppState,
    other: &mut AppState,
    enabled: bool,
    haptics: bool,
    first: Option<Save>,
    second: Option<Save>,
    i: usize,
)
    requires
        call_ensures(AppState::commit_action_ring_enabled, (state, enabled), first),
        call_ensures(AppState::commit_action_ring_haptics, (other, haptics), second),
        edits(*old(state), i),
        edits(*old(other), i),
        old(state).config.devices@.contains_key(key_of(*old(state), i)),
        old(other).config.devices@.contains_key(key_of(*old(other), i)),
    ensures
        first matches Some(save) && save.reload,
        second matches Some(save) && save.reload,
        ({
            let was = old(state).config.devices@[key_of(*old(state), i)].action_ring;
            let now = final(state).config.devices@[key_of(*old(state), i)].action_ring;
            &&& now.enabled == enabled
            &&& now.haptics == was.haptics
            &&& now.default == was.default
            &&& now.per_app@ == was.per_app@
        }),
        ({
            let was = old(other).config.devices@[key_of(*old(other), i)].action_ring;
            let now = final(other).config.devices@[key_of(*old(other), i)].action_ring;
            &&& now.haptics == haptics
            &&& now.enabled == was.enabled
            &&& now.default == was.default
            &&& now.per_app@ == was.per_app@
        }),
        other_settings_stay(
            old(state).config.devices@[key_of(*old(state), i)],
            final(state).config.devices@[key_of(*old(state), i)],
        ),
        other_settings_stay(
            old(other).config.devices@[key_of(*old(other), i)],
            final(other).config.devices@[key_of(*old(other), i)],
        ),
{
}

/// Without a physical device the ring cannot be edited.
pub proof fn probes_have_no_ring_of_their_own(
    state: &mut AppState,
    slot: ActionRingSlot,
    action: Option<u32>,
    save: Option<Save>,
    i: usize,
)
    requires
        call_ensures(AppState::commit_action_ring_slot, (state, slot, action), save),
        old(state).devices.selected is None || (old(state).devices.selected == Some(i) && i < old(state).devices.records@.len() && !old(state).devices.records@[i as int].persistent),
    ensures
        save is None,
        *final(state) == *old(state),
{
}

/// The slots are counted clockwise from the top.
pub proof fn slots_go_clockwise(slot: ActionRingSlot, index: usize, slots: Vec<ActionRingSlot>)
    requires
        call_ensures(ActionRingSlot::index, (slot,), index),
        call_ensures(ActionRingSlot::all, (), slots),
    ensures
        slots@.len() == 8,
        slots@[index as int] == slot,
        slot == ActionRingSlot::Top <==> index == 0,
        slot == ActionRingSlot::TopRight <==> index == 1,
        slot == ActionRingSlot::Right <==> index == 2,
        slot == ActionRingSlot::BottomRight <==> index == 3,
        slot == ActionRingSlot::Bottom <==> index == 4,
        slot == ActionRingSlot::BottomLeft <==> index == 5,
        slot == ActionRingSlot::Left <==> index == 6,
        slot == ActionRingSlot::TopLeft <==> index == 7,
{
    assert(slots@[index as int].position() == index);
}

/// Every panel repaints for a change of the list or the selection; a change of
/// one device concerns only the panels of its sort, while it is selected.
pub proof fn a_change_repaints_its_panels(
    state: &AppState,
    panel: Panel,
    event: &StateEvent,
    relevant: bool,
    i: usize,
)
    requires
        call_ensures(AppState::relevant, (state, panel, event), relevant),
        state.devices.selected == Some(i),
        i < state.devices.records@.len(),
    ensures
        event is InventoryChanged || event is DeviceSelected ==> relevant,
        event is SettingsChanged ==> !relevant,
        event is CameraChanged ==> (relevant <==> panel == Panel::Camera || panel
            == Panel::StandaloneLight),
        event is CameraPermissionChanged ==> (relevant <==> panel == Panel::Camera),
        event matches StateEvent::DpiChanged(key) ==> (relevant <==> panel == Panel::Dpi && key@
            == key_of(*state, i)),
        event matches StateEvent::ReportRateChanged(key) ==> (relevant <==> panel
            == Panel::ReportRate && key@ == key_of(*state, i)),
        event matches StateEvent::SmartShiftChanged(key) ==> (relevant <==> panel
            == Panel::SmartShift && key@ == key_of(*state, i)),
        event matches StateEvent::DeviceConfigChanged(key) ==> (relevant <==> panel
            == Panel::SmartShift && key@ == key_of(*state, i)),
        event matches StateEvent::LightingChanged(key) ==> (relevant <==> (panel
            == Panel::DeviceLighting || panel == Panel::StandaloneLight) && key@ == key_of(
            *state,
            i,
        )),
        event matches StateEvent::BindingsChanged(key) ==> (relevant <==> panel
            != Panel::StandaloneLight && panel != Panel::Camera && key@ == key_of(*state, i)),
{
}

/// Settings that could not be saved go back to what is on disk.
pub proof fn a_failed_save_goes_back_to_disk(
    state: &mut AppState,
    outcome: SaveOutcome,
    saved: bool,
)
    requires
        call_ensures(AppState::finish_save, (state, outcome), saved),
    ensures
        saved <==> outcome is Saved,
        outcome is Saved ==> *final(state) == *old(state),
        outcome matches SaveOutcome::Failed { persisted } ==> final(state).config == persisted,
        final(state).devices == old(state).devices,
        final(state).pointer == old(state).pointer,
        final(state).editing_app == old(state).editing_app,
{
}

} // verus!
