//! How the keys of the top row are drawn, and how their editors behave.

use crate::binding::{Action, WorkflowStep};
use crate::features::keyboard::editors::{
    editor_card, power_user_selected, step_kind, text_editor_placeholder, EditorCard, Placeholder,
    PowerUserKind,
};
use crate::features::keyboard::function_row::{
    callout_center_x, callout_lane_is_lower, callout_left_px, callout_top_px, key_is_highlighted,
    key_target_left_px, key_target_top_px, keyboard_render_size, leader, panel_action_rows,
    FunctionRowScreen, FunctionRowView, KeyBinding, KeySlot, Leader, Panel, PowerUserRow,
};
use crate::features::keyboard::key_points::{
    fallback_key_points, gaps, key_points, median_pitch, KeyPoint,
};
use crate::rank::{everyone, members_before, rank};
use crate::services::assets::metadata::ResolvedAsset;
use crate::state::AppState;
use vstd::prelude::*;

verus! {

/// A key is highlighted while it is selected or pointed at.
pub proof fn selected_and_pointed_keys_are_highlighted(
    idx: usize,
    selected: Option<usize>,
    hovered: Option<usize>,
    on: bool,
)
    requires
        call_ensures(key_is_highlighted, (idx, selected, hovered), on),
    ensures
        selected == Some(idx) ==> on,
        hovered == Some(idx) ==> on,
        selected != Some(idx) && hovered != Some(idx) ==> !on,
{
}

/// Neighbouring callouts are in different lanes, the first in the lower one.
pub proof fn callouts_alternate(
    idx: usize,
    next: usize,
    lower: bool,
    other: bool,
    top: u32,
    beside: u32,
    first: bool,
)
    requires
        next == idx + 1,
        call_ensures(callout_lane_is_lower, (idx,), lower),
        call_ensures(callout_lane_is_lower, (next,), other),
        call_ensures(callout_lane_is_lower, (0usize,), first),
        call_ensures(callout_top_px, (idx,), top),
        call_ensures(callout_top_px, (next,), beside),
    ensures
        first,
        lower != other,
        lower ==> top == 50_000 && beside == 4_000,
        !lower ==> top == 4_000 && beside == 50_000,
{
}

/// A callout's left edge keeps it on the picture, with its centre at its place
/// where there is room.
pub proof fn a_callout_is_centred(
    idx: usize,
    n: usize,
    image_w: u32,
    callout_w: u32,
    x: i128,
    left: u32,
)
    requires
        callout_w <= image_w,
        call_ensures(callout_center_x, (idx, n, image_w), x),
        call_ensures(callout_left_px, (idx, n, image_w, callout_w), left),
    ensures
        left + callout_w <= image_w,
        0 < left < image_w - callout_w ==> left == x - callout_w / 2,
        left == 0 ==> x <= callout_w / 2 || callout_w == image_w,
        left == image_w - callout_w ==> x - callout_w / 2 >= left || callout_w == image_w,
{
}

/// A leader runs from the middle of its callout's lower edge to its key.
pub proof fn a_leader_runs_to_its_key(
    slot: &KeySlot,
    n: usize,
    img: (u32, u32),
    selected: Option<usize>,
    hovered: Option<usize>,
    line: Leader,
    x: i128,
    top: u32,
    on: bool,
)
    requires
        call_ensures(leader, (slot, n, img, selected, hovered), line),
        call_ensures(callout_center_x, (slot.idx, n, img.0), x),
        call_ensures(callout_top_px, (slot.idx,), top),
        call_ensures(key_is_highlighted, (slot.idx, selected, hovered), on),
    ensures
        line.callout_x == x,
        line.callout_bottom == top + 48_000,
        line.callout_bottom < line.elbow_y < 118_000,
        line.elbow_y == 104_000,
        1_000_000 * line.key_x <= slot.x_frac * img.0 < 1_000_000 * (line.key_x + 1),
        1_000_000 * (line.key_y - 118_000) <= slot.y_frac * img.1 < 1_000_000 * (line.key_y
            - 118_000 + 1),
        line.highlighted == on,
{
}

/// A key's rectangle is placed from the top as it is from the left.
pub proof fn rectangles_are_placed_alike(frac: i64, size: u32, target: u32, left: u32, top: u32)
    requires
        target <= size,
        call_ensures(key_target_left_px, (frac, size, target), left),
        call_ensures(key_target_top_px, (frac, size, target), top),
    ensures
        left == top,
{
}

/// A step that was added can be taken out again.
pub proof fn an_added_step_can_be_taken_out(
    view: &mut FunctionRowView,
    step: WorkflowStep,
    after: &mut FunctionRowView,
    idx: usize,
    removed: bool,
)
    requires
        call_ensures(FunctionRowView::push_workflow_step, (view, step), ()),
        *old(after) == *final(view),
        idx == old(view).workflow_draft@.len(),
        call_ensures(FunctionRowView::remove_workflow_step, (after, idx), removed),
    ensures
        removed,
        final(view).workflow_draft@.len() == old(view).workflow_draft@.len() + 1,
        final(view).workflow_draft@.last() == step,
        final(after).workflow_draft@ == old(view).workflow_draft@,
        final(after).selected_key == old(view).selected_key,
        final(after).active_editor == old(view).active_editor,
        final(after).text == old(view).text,
{
    assert(final(after).workflow_draft@ =~= old(view).workflow_draft@);
}

/// Only a step that there is can be taken out, and the others keep their order.
pub proof fn other_steps_stay(view: &mut FunctionRowView, idx: usize, removed: bool, k: int)
    requires
        call_ensures(FunctionRowView::remove_workflow_step, (view, idx), removed),
    ensures
        removed <==> idx < old(view).workflow_draft@.len(),
        !removed ==> final(view).workflow_draft@ == old(view).workflow_draft@,
        removed ==> final(view).workflow_draft@.len() == old(view).workflow_draft@.len() - 1,
        removed && 0 <= k < idx ==> final(view).workflow_draft@[k] == old(view).workflow_draft@[k],
        removed && idx <= k < final(view).workflow_draft@.len() ==> final(view).workflow_draft@[k]
            == old(view).workflow_draft@[k + 1],
{
}

/// An opened editor starts without drafts, and a closed one leaves none; the
/// selection stays.
pub proof fn editors_leave_no_drafts(
    view: &mut FunctionRowView,
    other: &mut FunctionRowView,
    kind: PowerUserKind,
)
    requires
        call_ensures(FunctionRowView::open_editor, (view, kind), ()),
        call_ensures(FunctionRowView::close_editor, (other,), ()),
    ensures
        final(view).active_editor == Some(kind),
        final(view).text is None,
        final(view).workflow_draft@.len() == 0,
        final(view).selected_key == old(view).selected_key,
        final(other).active_editor is None,
        final(other).text is None,
        final(other).workflow_draft@.len() == 0,
        final(other).selected_key == old(other).selected_key,
{
}

/// Pointing at a key is told once.
pub proof fn pointing_is_told_once(
    view: &mut FunctionRowView,
    again: &mut FunctionRowView,
    idx: Option<usize>,
    first: bool,
    second: bool,
)
    requires
        call_ensures(FunctionRowView::set_hovered_key, (view, idx), first),
        *old(again) == *final(view),
        call_ensures(FunctionRowView::set_hovered_key, (again, idx), second),
    ensures
        final(view).hovered_key == idx,
        first <==> old(view).hovered_key != idx,
        !second,
        final(view).selected_key == old(view).selected_key,
        final(view).text == old(view).text,
{
}

/// Each kind of action has its heading.
pub proof fn editors_are_headed(kind: PowerUserKind, key: &'static str)
    requires
        call_ensures(PowerUserKind::heading_key, (kind,), key),
    ensures
        kind == PowerUserKind::TypeText ==> key@ == "actions.type_text_heading"@,
        kind == PowerUserKind::RunAppleScript ==> key@ == "actions.run_applescript_heading"@,
        kind == PowerUserKind::RunShellCommand ==> key@ == "actions.run_shell_command_heading"@,
        kind == PowerUserKind::Workflow ==> key@ == "actions.workflow_heading"@,
{
}

/// A text editor shows an example of what it takes.
pub proof fn editors_show_an_example(kind: PowerUserKind, placeholder: Placeholder)
    requires
        call_ensures(text_editor_placeholder, (kind,), placeholder),
    ensures
        placeholder is Message <==> kind == PowerUserKind::TypeText,
        placeholder matches Placeholder::Message(key) ==> key@ == "actions.type_text_placeholder"@,
        placeholder matches Placeholder::Literal(text) ==> {
            &&& kind == PowerUserKind::RunAppleScript ==> text@ == "display dialog \"Hello\""@
            &&& kind == PowerUserKind::RunShellCommand ==> text@ == "echo hello"@
            &&& kind == PowerUserKind::Workflow ==> text@ == ""@
        },
{
}

/// A workflow is edited step by step, everything else as text, where there is a
/// field for it.
pub proof fn workflows_need_no_text_field(kind: PowerUserKind, has_text: bool, card: EditorCard)
    requires
        call_ensures(editor_card, (kind, has_text), card),
    ensures
        card == EditorCard::Workflow <==> kind == PowerUserKind::Workflow,
        card == EditorCard::Text(kind) <==> kind != PowerUserKind::Workflow && has_text,
        card == EditorCard::Unavailable <==> kind != PowerUserKind::Workflow && !has_text,
{
}

/// A step is named and drawn by what it does.
pub proof fn steps_are_named_by_what_they_do(
    step: &WorkflowStep,
    kind: (&'static str, &'static str),
)
    requires
        call_ensures(step_kind, (step,), kind),
    ensures
        step@ is TypeText ==> kind.0@ == "Type Text"@ && kind.1@ == "action-icons/keyboard.svg"@,
        step@ is PressKey ==> kind.0@ == "Press Key"@ && kind.1@ == "action-icons/keyboard.svg"@,
        step@ is Delay ==> kind.0@ == "Delay"@ && kind.1@ == "action-icons/chevrons-right.svg"@,
        step@ is RunAppleScript ==> kind.0@ == "AppleScript"@ && kind.1@
            == "action-icons/terminal.svg"@,
        step@ is RunShellCommand ==> kind.0@ == "Shell"@ && kind.1@ == "action-icons/terminal.svg"@,
{
}

/// The panel offers the four kinds of action, with the one that is bound marked.
pub proof fn the_bound_kind_is_marked(
    current: Option<&Action>,
    rows: [PowerUserRow; 4],
    i: int,
    selected: bool,
)
    requires
        call_ensures(panel_action_rows, (current,), rows),
        0 <= i < 4,
        call_ensures(power_user_selected, (current, rows@[i].kind), selected),
    ensures
        rows@[0].kind == PowerUserKind::TypeText,
        rows@[1].kind == PowerUserKind::RunAppleScript,
        rows@[2].kind == PowerUserKind::RunShellCommand,
        rows@[3].kind == PowerUserKind::Workflow,
        rows@[i].selected == selected,
{
    assert(i == 0 || i == 1 || i == 2 || i == 3);
}

/// What is drawn: the art of the selected device in its size, and the panel of
/// the row as it was made ready.
pub proof fn the_row_is_drawn_on_the_art(
    view: &mut FunctionRowView,
    state: &AppState,
    bindings: &Vec<KeyBinding>,
    transient: bool,
    viewport_h: u32,
    screen: FunctionRowScreen,
    asset: &ResolvedAsset,
    i: usize,
    size: (u32, u32),
    after: &FunctionRowView,
    panel: Panel,
)
    requires
        call_ensures(
            FunctionRowView::render,
            (view, Some(state), bindings, transient, viewport_h),
            screen,
        ),
        state.devices.selected == Some(i),
        i < state.devices.records@.len(),
        state.devices.records@[i as int].asset matches Some(own) && *own == *asset,
        call_ensures(keyboard_render_size, (Some(asset), viewport_h), size),
        *after == *final(view),
        call_ensures(FunctionRowView::config_panel, (after,), panel),
    ensures
        screen.image matches Some(path) && path@ == asset.image_path@,
        screen.size == size,
        screen.panel == panel,
        final(view).hovered_key == old(view).hovered_key,
{
}

/// Without a picture of the keyboard the row is the evenly spread one.
pub proof fn the_fallback_is_the_row_without_art(points: Vec<KeyPoint>, bare: Vec<KeyPoint>)
    requires
        call_ensures(fallback_key_points, (), points),
        call_ensures(key_points, (None::<&ResolvedAsset>,), bare),
    ensures
        points@ == bare@,
{
}

/// Of three keys the pitch is the wider of the two distances; keys that stand on
/// each other have none.
pub proof fn the_pitch_of_three_keys(points: &Vec<KeyPoint>, pitch: Option<i64>, a: int, b: int)
    requires
        call_ensures(median_pitch, (points,), pitch),
        points@.len() == 3,
        a == points@[1].x_frac - points@[0].x_frac,
        b == points@[2].x_frac - points@[1].x_frac,
        forall|k: int| 0 <= k < 3 ==> 0 <= (#[trigger] points@[k]).x_frac <= 1_000_000,
    ensures
        a > 0 && b > 0 ==> pitch is Some && pitch->0 == if a >= b {
            a
        } else {
            b
        },
        a > 0 && b <= 0 ==> pitch is Some && pitch->0 == a,
        a <= 0 && b > 0 ==> pitch is Some && pitch->0 == b,
        a <= 0 && b <= 0 ==> pitch is None,
{
    assert(0 <= points@[0].x_frac <= 1_000_000);
    assert(0 <= points@[1].x_frac <= 1_000_000);
    assert(0 <= points@[2].x_frac <= 1_000_000);
    reveal_with_fuel(gaps, 4);
    reveal_with_fuel(members_before, 4);
    let all = gaps(points@, 2);
    if pitch is Some {
        let i = choose|i: int|
            0 <= i < all.len() && #[trigger] all[i] == pitch->0 && rank(
                all,
                everyone(all.len()),
                i,
            ) == all.len() as int / 2;
        assert(all[i] == pitch->0);
        assert(i == 0 || i == 1);
    }
}

} // verus!
