//! The keys of the top row, their callouts, and what is edited of them.

use crate::binding::{step_views, Action, WorkflowStep};
use crate::features::keyboard::editors::{
    action_view, power_user_selected, saved_text, saved_workflow, step_preview, text_editor_seed,
    workflow_editor_seed, EditorCard, PowerUserKind,
};
use crate::features::keyboard::function_row::{
    callout_center_x, function_key, key_callout, key_slots, key_target_left_px,
    keyboard_render_size, next_selection_after_click, FunctionRowView, KeyBinding, KeyCallout,
    KeySlot, Panel,
};
use crate::features::keyboard::key_points::KeyPoint;
use crate::features::mouse::geometry::pictures_fit_their_box;
use crate::services::assets::metadata::ResolvedAsset;
use vstd::prelude::*;

verus! {

/// The code of a key of the row: Esc, then F1 and so on.
pub open spec fn code_of(idx: int) -> int {
    if idx == 0 {
        0x35
    } else if idx == 1 {
        0x7a
    } else if idx == 2 {
        0x78
    } else if idx == 3 {
        0x63
    } else if idx == 4 {
        0x76
    } else if idx == 5 {
        0x60
    } else if idx == 6 {
        0x61
    } else if idx == 7 {
        0x62
    } else if idx == 8 {
        0x64
    } else if idx == 9 {
        0x65
    } else if idx == 10 {
        0x6d
    } else if idx == 11 {
        0x67
    } else if idx == 12 {
        0x6f
    } else if idx == 13 {
        0x69
    } else if idx == 14 {
        0x6b
    } else if idx == 15 {
        0x71
    } else if idx == 16 {
        0x6a
    } else if idx == 17 {
        0x40
    } else if idx == 18 {
        0x4f
    } else {
        0x50
    }
}

/// Each key of the row has its code, and no two keys share one.
pub proof fn each_key_has_its_code(
    a: usize,
    b: usize,
    key: (&'static str, u16),
    other: (&'static str, u16),
)
    requires
        a < 20,
        b < 20,
        call_ensures(function_key, (a,), key),
        call_ensures(function_key, (b,), other),
    ensures
        key.1 == code_of(a as int),
        key.1 == other.1 ==> a == b,
        a == 0 ==> key.0@ == "Esc"@,
        a == 1 ==> key.0@ == "F1"@,
        a == 12 ==> key.0@ == "F12"@,
        a == 19 ==> key.0@ == "F19"@,
{
    if key.1 == other.1 {
        crate::features::keyboard::function_row::key_codes_differ(a as int, b as int);
    }
}

/// The row has a slot for each place, up to the keys that there are. A slot is
/// at its place, bears its key's label and code, and is bound by the first
/// binding of that code without modifiers.
pub proof fn each_place_has_its_key(
    points: &Vec<KeyPoint>,
    bindings: &Vec<KeyBinding>,
    slots: Vec<KeySlot>,
    i: int,
    at: usize,
    key: (&'static str, u16),
)
    requires
        call_ensures(key_slots, (points, bindings), slots),
        0 <= i < slots@.len(),
        call_ensures(function_key, (i as usize,), key),
    ensures
        slots@.len() <= 20,
        points@.len() <= 20 ==> slots@.len() == points@.len(),
        points@.len() > 20 ==> slots@.len() == 20,
        slots@[i].idx == i,
        slots@[i].label@ == key.0@,
        slots@[i].trigger.keycode == key.1,
        slots@[i].trigger.modifiers == 0,
        slots@[i].x_frac == points@[i].x_frac,
        slots@[i].y_frac == points@[i].y_frac,
        at < bindings@.len() && bindings@[at as int].trigger.keycode == key.1
            && bindings@[at as int].trigger.modifiers == 0 && (forall|k: int|
            0 <= k < at ==> !((#[trigger] bindings@[k]).trigger.keycode == key.1
                && bindings@[k].trigger.modifiers == 0)) ==> slots@[i].bound == Some(at),
        (forall|k: int|
            0 <= k < bindings@.len() ==> !((#[trigger] bindings@[k]).trigger.keycode == key.1
                && bindings@[k].trigger.modifiers == 0)) ==> slots@[i].bound is None,
{
    assert(slots@[i].idx == i);
    let slot = slots@[i];
    if at < bindings@.len() && bindings@[at as int].trigger.keycode == key.1
        && bindings@[at as int].trigger.modifiers == 0 && (forall|k: int|
        0 <= k < at ==> !((#[trigger] bindings@[k]).trigger.keycode == key.1
            && bindings@[k].trigger.modifiers == 0)) {
        assert(bindings@[at as int].trigger == slot.trigger);
        if let Some(found) = slot.bound {
            assert(bindings@[found as int].trigger == slot.trigger);
        }
    }
    if forall|k: int|
        0 <= k < bindings@.len() ==> !((#[trigger] bindings@[k]).trigger.keycode == key.1
            && bindings@[k].trigger.modifiers == 0) {
        if let Some(found) = slot.bound {
            assert(bindings@[found as int].trigger == slot.trigger);
        }
    }
}

/// A click selects a key, and a second click on it selects none. Either drops
/// what was being edited.
pub proof fn a_second_click_deselects(view: &mut FunctionRowView, idx: usize, next: Option<usize>)
    requires
        call_ensures(FunctionRowView::click_key, (view, idx), ()),
        call_ensures(next_selection_after_click, (Some(idx), idx), next),
    ensures
        next is None,
        old(view).selected_key == Some(idx) ==> final(view).selected_key is None,
        old(view).selected_key != Some(idx) ==> final(view).selected_key == Some(idx),
        final(view).active_editor is None,
        final(view).text is None,
        final(view).workflow_draft@.len() == 0,
        final(view).hovered_key == old(view).hovered_key,
{
}

/// What is drafted stays with the key that it was begun for: selecting another
/// drops it, selecting the same keeps it.
pub proof fn drafts_stay_with_their_key(view: &mut FunctionRowView, idx: Option<usize>)
    requires
        call_ensures(FunctionRowView::select_key, (view, idx), ()),
    ensures
        final(view).selected_key == idx,
        old(view).selected_key == idx ==> final(view).active_editor == old(view).active_editor
            && final(view).text == old(view).text && final(view).workflow_draft
            == old(view).workflow_draft,
        old(view).selected_key != idx ==> final(view).active_editor is None && final(view).text
            is None && final(view).workflow_draft@.len() == 0,
{
}

/// A selection beyond the row of the current device is dropped with its drafts;
/// any other stays.
pub proof fn a_stale_selection_is_dropped(
    view: &mut FunctionRowView,
    slots: &Vec<KeySlot>,
    bindings: &Vec<KeyBinding>,
    selected: usize,
)
    requires
        forall|i: int|
            0 <= i < slots@.len() ==> ((#[trigger] slots@[i]).bound matches Some(at) ==> at
                < bindings@.len()),
        call_ensures(FunctionRowView::prepare, (view, slots, bindings), ()),
        old(view).selected_key == Some(selected),
    ensures
        selected >= slots@.len() ==> final(view).selected_key is None && final(view).active_editor
            is None && final(view).text is None,
        selected < slots@.len() ==> final(view).selected_key == Some(selected)
            && final(view).active_editor == old(view).active_editor,
        selected < slots@.len() && old(view).text is Some && old(view).active_editor is Some
            ==> final(view).text == old(view).text,
        selected < slots@.len() && old(view).text is None && old(view).active_editor == Some(
            PowerUserKind::TypeText,
        ) && slots@[selected as int].bound is Some ==> (bindings@[slots@[selected as int].bound->0
            as int].action matches Action::TypeText(bound) ==> (final(view).text matches Some(text)
            && text@ == bound@)),
{
}

/// The panel is closed without a selection, lists the actions without an
/// editor, and shows the editor otherwise.
pub proof fn the_panel_follows_the_selection(view: &FunctionRowView, panel: Panel)
    requires
        call_ensures(FunctionRowView::config_panel, (view,), panel),
    ensures
        panel is Closed <==> view.selected_key is None,
        panel is Actions <==> view.selected_key is Some && view.active_editor is None,
        view.selected_key is Some && view.active_editor == Some(PowerUserKind::Workflow) ==> panel
            == Panel::Editor(EditorCard::Workflow),
        view.selected_key is Some ==> (view.active_editor matches Some(kind) ==> kind
            != PowerUserKind::Workflow ==> panel == Panel::Editor(
            if view.text is Some {
                EditorCard::Text(kind)
            } else {
                EditorCard::Unavailable
            },
        )),
{
}

proof fn even_shares(idx: int, span: int, steps: int)
    requires
        0 <= idx <= steps,
        0 < steps,
        0 <= span,
    ensures
        0 <= idx * span - steps * ((idx * span) / steps) < steps,
        0 <= (idx * span) / steps <= span,
{
    let product = idx * span;
    let q = product / steps;
    assert(0 <= product <= steps * span) by (nonlinear_arith)
        requires
            product == idx * span,
            0 <= idx <= steps,
            0 <= span,
    ;
    assert(q * steps <= product < q * steps + steps && 0 <= q && steps * q == q * steps)
        by (nonlinear_arith)
        requires
            0 < steps,
            0 <= product,
            q == product / steps,
    ;
    assert(q <= span) by (nonlinear_arith)
        requires
            0 < steps,
            q * steps <= product,
            product <= steps * span,
    ;
}

/// The callouts are spread evenly over the width, from the margin on the left to
/// that on the right, but for rounding down; a single one is in the middle.
pub proof fn callouts_are_spread_evenly(idx: usize, count: usize, image_w: u32, x: i128)
    requires
        call_ensures(callout_center_x, (idx, count, image_w), x),
        idx < count,
        image_w >= 68_000,
    ensures
        count == 1 ==> 0 <= image_w - 2 * x <= 1,
        count >= 2 ==> {
            let steps = count - 1;
            let span = image_w - 68_000;
            0 <= idx * span - steps * (x - 34_000) < steps
        },
        count >= 2 && idx == 0 ==> x == 34_000,
        count >= 2 && idx == count - 1 ==> x == image_w - 34_000,
{
    if count >= 2 {
        even_shares(idx as int, image_w - 68_000, count - 1);
        crate::features::keyboard::function_row::callouts_fill_the_width(count as int, image_w);
    }
}

/// A callout lies within the picture, centred where it can be; neighbours are in
/// different lanes.
pub proof fn callouts_lie_on_the_picture(
    slot: &KeySlot,
    count: usize,
    image_w: u32,
    selected: Option<usize>,
    hovered: Option<usize>,
    callout: KeyCallout,
    x: i128,
)
    requires
        image_w >= 60_000,
        call_ensures(key_callout, (slot, count, image_w, selected, hovered), callout),
        call_ensures(callout_center_x, (slot.idx, count, image_w), x),
    ensures
        callout.left + 60_000 <= image_w,
        30_000 <= x <= image_w - 30_000 ==> callout.left + 30_000 == x,
        x < 30_000 ==> callout.left == 0,
        x > image_w - 30_000 ==> callout.left + 60_000 == image_w,
        slot.idx % 2 == 0 ==> callout.top == 50_000,
        slot.idx % 2 == 1 ==> callout.top == 4_000,
        callout.highlighted <==> selected == Some(slot.idx) || hovered == Some(slot.idx),
        callout.bound <==> slot.bound is Some,
{
}

/// The rectangle over a key is centred on it as far as the picture allows.
pub proof fn a_keys_rectangle_is_centred(x_frac: i64, img_w: u32, target_w: u32, left: u32)
    requires
        target_w <= img_w,
        0 <= x_frac <= 1_000_000,
        call_ensures(key_target_left_px, (x_frac, img_w, target_w), left),
    ensures
        left + target_w <= img_w,
        ({
            let middle = left + target_w / 2;
            &&& left > 0 && left + target_w < img_w ==> 1_000_000 * middle <= x_frac * img_w
                < 1_000_000 * (middle + 1)
            &&& left == 0 && left + target_w < img_w ==> x_frac * img_w < 1_000_000 * (middle + 1)
        }),
{
}

/// A keyboard's picture keeps its proportions, is no wider than the panel has
/// room for and no higher than the window leaves, and without a picture a box of
/// a fixed size stands there.
pub proof fn a_keyboard_fits_the_window(
    asset: &ResolvedAsset,
    viewport_h: u32,
    size: (u32, u32),
    bare: (u32, u32),
)
    requires
        call_ensures(keyboard_render_size, (Some(asset), viewport_h), size),
        call_ensures(keyboard_render_size, (None::<&ResolvedAsset>, viewport_h), bare),
    ensures
        bare == (700_000u32, 220_000u32),
        asset.png_height == 0 ==> size == (700_000u32, 220_000u32),
        asset.png_height > 0 ==> {
            let room = if viewport_h > 502_000 {
                viewport_h - 342_000
            } else {
                160_000
            };
            &&& size.0 <= 700_000
            &&& size.1 <= room
            &&& size.0 == 700_000 || size.1 == room
            &&& size.1 < room ==> size.1 * asset.png_width <= 700_000 * asset.png_height < (size.1
                + 1) * asset.png_width
            &&& size.0 < 700_000 ==> size.0 * asset.png_height <= room * asset.png_width < (size.0
                + 1) * asset.png_height
        },
{
    if asset.png_height > 0 {
        let left = viewport_h - 342_000;
        let room = if left > 160_000 {
            left as u32
        } else {
            160_000u32
        };
        pictures_fit_their_box(asset.png_width, asset.png_height, room, 700_000);
    }
}

/// A text that was saved is what its editor starts from again; the editor of
/// another kind starts from nothing, and is not marked.
pub proof fn a_saved_text_is_the_next_seed(
    kind: PowerUserKind,
    text: String,
    action: Option<Action>,
    other: PowerUserKind,
    bound: &Action,
    seed: String,
    selected: bool,
)
    requires
        call_ensures(saved_text, (kind, text), action),
        action == Some(*bound),
        call_ensures(text_editor_seed, (Some(bound), other), seed),
        call_ensures(power_user_selected, (Some(bound), other), selected),
    ensures
        other == kind ==> seed@ == text@ && selected,
        other != kind ==> seed@ == ""@ && !selected,
{
    assert(action_view(Some(bound)) == Some(bound@));
    assert(action_view(
        match action {
            Some(action) => Some(&action),
            None => None,
        },
    ) == Some(bound@));
}

/// Steps that were saved are what the workflow editor starts from again.
pub proof fn saved_steps_are_the_next_seed(
    steps: &Vec<WorkflowStep>,
    action: Action,
    bound: &Action,
    seed: Vec<WorkflowStep>,
)
    requires
        call_ensures(saved_workflow, (steps,), action),
        *bound == action,
        call_ensures(workflow_editor_seed, (Some(bound),), seed),
    ensures
        step_views(seed@) == step_views(steps@),
{
}

/// A row of the workflow editor shows a step's text, or dots where it has none,
/// and the keys of a combination as they are written.
pub proof fn a_step_shows_its_payload(step: &WorkflowStep, shown: String)
    requires
        call_ensures(step_preview, (step,), shown),
    ensures
        *step matches WorkflowStep::PressKey(combo) ==> shown@ == combo@,
        *step matches WorkflowStep::RunAppleScript(text) ==> text@.len() > 0 ==> shown@ == text@,
        *step matches WorkflowStep::RunShellCommand(text) ==> text@.len() > 0 ==> shown@ == text@,
        *step matches WorkflowStep::TypeText(text) ==> text@.len() > 0 ==> shown@
            == "\u{201c}"@ + text@ + "\u{201d}"@,
        *step matches WorkflowStep::RunAppleScript(text) ==> text@.len() == 0 ==> shown@
            == "\u{2026}"@,
        *step matches WorkflowStep::RunShellCommand(text) ==> text@.len() == 0 ==> shown@
            == "\u{2026}"@,
        *step matches WorkflowStep::TypeText(text) ==> text@.len() == 0 ==> shown@ == "\u{2026}"@,
        *step matches WorkflowStep::Delay { millis } ==> shown@ == crate::text::decimal(
            millis as nat,
        ) + " ms"@,
{
}

} // verus!
