//! The top row of a keyboard: its keys, their callouts, and the panel of the
//! selected one.
//!
//! All lengths are in thousandths of a pixel, all fractions in parts per
//! million of the picture.

use crate::binding::{Action, ActionView, WorkflowStep};
use crate::features::keyboard::editors::{
    action_view, edits, editor_card, power_user_selected, text_editor_seed, text_seed,
    workflow_editor_seed, EditorCard, PowerUserKind,
};
use crate::features::keyboard::key_points::{key_points, shows_keys, KeyPoint, ROW_KEYS};
use crate::features::mouse::geometry::{asset_dimensions_for_png, fitted, share, WHOLE};
use crate::hid::Rgb;
use crate::record::DeviceRecord;
use crate::services::assets::metadata::{GlowGeometry, ResolvedAsset};
use crate::state::AppState;
use crate::text::owned_view;
use crate::window::home::{glow_of, keyboard_glow};
use std::sync::Arc;
use vstd::prelude::*;

verus! {

/// The width of the panel of the selected key.
pub const PANEL_W: u32 = 320_000;

/// The largest width of the keyboard's picture.
pub const KEYBOARD_W: u32 = 700_000;

/// The height of the box that stands for a keyboard without a picture.
pub const FALLBACK_KEYBOARD_H: u32 = 220_000;

/// The room above the keyboard for the callouts.
pub const CALLOUT_BAND_H: u32 = 118_000;

/// What else takes height beside the callouts and the picture.
pub const KEYS_VERTICAL_RESERVE: u32 = 224_000;

/// The least height that a picture is given.
pub const KEYBOARD_MIN_IMG_H: u32 = 160_000;

/// The size of a callout.
pub const KEY_CALLOUT_W: u32 = 60_000;

pub const KEY_CALLOUT_H: u32 = 48_000;

/// The tops of the two lanes of callouts.
pub const KEY_CALLOUT_TOP_UPPER: u32 = 4_000;

pub const KEY_CALLOUT_TOP_LOWER: u32 = 50_000;

/// The size of the rectangle over a key that takes its clicks.
pub const KEY_TARGET_W: u32 = 30_000;

pub const KEY_TARGET_H: u32 = 30_000;

/// The distance of the outermost callouts' centres from the edges.
pub const CALLOUT_MARGIN: i64 = 34_000;

/// The key code and the modifiers of a binding.
#[derive(Debug, Clone, Copy, PartialEq, Eq, Structural)]
pub struct KeyTrigger {
    pub keycode: u16,
    /// The modifiers that have to be down; none is `0`.
    pub modifiers: u8,
}

/// A key of the row that is bound to an action.
#[derive(Debug)]
pub struct KeyBinding {
    pub trigger: KeyTrigger,
    pub action: Action,
}

/// What stands on the keys of the row: Esc and F1 to F19.
pub open spec fn key_names() -> Seq<Seq<char>> {
    seq![
        "Esc"@,
        "F1"@,
        "F2"@,
        "F3"@,
        "F4"@,
        "F5"@,
        "F6"@,
        "F7"@,
        "F8"@,
        "F9"@,
        "F10"@,
        "F11"@,
        "F12"@,
        "F13"@,
        "F14"@,
        "F15"@,
        "F16"@,
        "F17"@,
        "F18"@,
        "F19"@,
    ]
}

/// What stands on key `idx` of the row.
pub open spec fn key_name(idx: int) -> Seq<char> {
    key_names()[idx]
}

/// The codes of the keys of the row.
pub open spec fn key_codes() -> Seq<u16> {
    seq![
        0x35,
        0x7a,
        0x78,
        0x63,
        0x76,
        0x60,
        0x61,
        0x62,
        0x64,
        0x65,
        0x6d,
        0x67,
        0x6f,
        0x69,
        0x6b,
        0x71,
        0x6a,
        0x40,
        0x4f,
        0x50,
    ]
}

/// The code of key `idx` of the row.
pub open spec fn key_code(idx: int) -> u16 {
    key_codes()[idx]
}

/// What stands on key `idx` of the row, and its code.
pub fn function_key(idx: usize) -> (key: (&'static str, u16))
    requires
        idx < ROW_KEYS,
    ensures
        key.0@ == key_name(idx as int),
        key.1 == key_code(idx as int),
{
    match idx {
        0 => ("Esc", 0x35),
        1 => ("F1", 0x7a),
        2 => ("F2", 0x78),
        3 => ("F3", 0x63),
        4 => ("F4", 0x76),
        5 => ("F5", 0x60),
        6 => ("F6", 0x61),
        7 => ("F7", 0x62),
        8 => ("F8", 0x64),
        9 => ("F9", 0x65),
        10 => ("F10", 0x6d),
        11 => ("F11", 0x67),
        12 => ("F12", 0x6f),
        13 => ("F13", 0x69),
        14 => ("F14", 0x6b),
        15 => ("F15", 0x71),
        16 => ("F16", 0x6a),
        17 => ("F17", 0x40),
        18 => ("F18", 0x4f),
        19 => ("F19", 0x50),
        _ => ("", 0),
    }
}

/// No two keys of the row have the same code.
pub proof fn key_codes_differ(i: int, j: int)
    requires
        0 <= i < ROW_KEYS,
        0 <= j < ROW_KEYS,
        key_code(i) == key_code(j),
    ensures
        i == j,
{
}

/// The selection after a click on a key: that key, or none if it was selected.
pub fn next_selection_after_click(current: Option<usize>, clicked: usize) -> (next: Option<usize>)
    ensures
        next == if current == Some(clicked) {
            None
        } else {
            Some(clicked)
        },
{
    match current {
        Some(selected) if selected == clicked => None,
        _ => Some(clicked),
    }
}

/// Whether a key is drawn highlighted.
pub fn key_is_highlighted(idx: usize, selected: Option<usize>, hovered: Option<usize>) -> (on: bool)
    ensures
        on == (selected == Some(idx) || hovered == Some(idx)),
{
    let chosen = match selected {
        Some(selected) => selected == idx,
        None => false,
    };
    let pointed_at = match hovered {
        Some(hovered) => hovered == idx,
        None => false,
    };
    chosen || pointed_at
}

/// The state of the row: which key is selected and which one is pointed at, and
/// what is being edited.
#[derive(Debug)]
pub struct FunctionRowView {
    pub selected_key: Option<usize>,
    pub hovered_key: Option<usize>,
    pub active_editor: Option<PowerUserKind>,
    /// What the text editor holds, once it was made.
    pub text: Option<String>,
    pub workflow_draft: Vec<WorkflowStep>,
}

impl FunctionRowView {
    /// Nothing is selected.
    pub fn new() -> (view: Self)
        ensures
            view.selected_key is None,
            view.hovered_key is None,
            view.no_editor(),
    {
        FunctionRowView {
            selected_key: None,
            hovered_key: None,
            active_editor: None,
            text: None,
            workflow_draft: Vec::new(),
        }
    }

    /// Whether no editor is open, and nothing drafted is left.
    pub open spec fn no_editor(self) -> bool {
        self.active_editor is None && self.text is None && self.workflow_draft@.len() == 0
    }

    /// Whether the drafts are those of `other`.
    pub open spec fn same_editor(self, other: FunctionRowView) -> bool {
        self.active_editor == other.active_editor && self.text == other.text && self.workflow_draft
            == other.workflow_draft
    }

    fn drop_drafts(&mut self)
        ensures
            final(self).no_editor(),
            final(self).selected_key == old(self).selected_key,
            final(self).hovered_key == old(self).hovered_key,
    {
        self.active_editor = None;
        self.text = None;
        self.workflow_draft = Vec::new();
    }

    /// Selects a key, or none. Another selection drops what was being edited.
    pub fn select_key(&mut self, idx: Option<usize>)
        ensures
            final(self).selected_key == idx,
            final(self).hovered_key == old(self).hovered_key,
            old(self).selected_key != idx ==> final(self).no_editor(),
            old(self).selected_key == idx ==> final(self).same_editor(*old(self)),
    {
        if !same_key(self.selected_key, idx) {
            self.drop_drafts();
        }
        self.selected_key = idx;
    }

    /// A click on a key, or on its callout.
    pub fn click_key(&mut self, idx: usize)
        ensures
            final(self).selected_key == if old(self).selected_key == Some(idx) {
                None
            } else {
                Some(idx)
            },
            final(self).hovered_key == old(self).hovered_key,
            final(self).no_editor(),
    {
        let next = next_selection_after_click(self.selected_key, idx);
        self.select_key(next);
    }

    /// Points at a key, or at none; says whether that is new.
    pub fn set_hovered_key(&mut self, idx: Option<usize>) -> (changed: bool)
        ensures
            changed == (old(self).hovered_key != idx),
            *final(self) == (FunctionRowView { hovered_key: idx, ..*old(self) }),
    {
        let changed = !same_key(self.hovered_key, idx);
        self.hovered_key = idx;
        changed
    }

    /// Opens an editor, without anything drafted.
    pub fn open_editor(&mut self, kind: PowerUserKind)
        ensures
            final(self).active_editor == Some(kind),
            final(self).text is None,
            final(self).workflow_draft@.len() == 0,
            final(self).selected_key == old(self).selected_key,
            final(self).hovered_key == old(self).hovered_key,
    {
        self.drop_drafts();
        self.active_editor = Some(kind);
    }

    /// Closes the editor.
    pub fn close_editor(&mut self)
        ensures
            final(self).no_editor(),
            final(self).selected_key == old(self).selected_key,
            final(self).hovered_key == old(self).hovered_key,
    {
        self.drop_drafts();
    }

    /// Adds a step to the drafted workflow.
    pub fn push_workflow_step(&mut self, step: WorkflowStep)
        ensures
            final(self).workflow_draft@ == old(self).workflow_draft@.push(step),
            *final(self) == (FunctionRowView {
                workflow_draft: final(self).workflow_draft,
                ..*old(self)
            }),
    {
        self.workflow_draft.push(step);
    }

    /// Takes a step out of the drafted workflow; says whether there was one.
    pub fn remove_workflow_step(&mut self, idx: usize) -> (removed: bool)
        ensures
            removed == (idx < old(self).workflow_draft@.len()),
            final(self).workflow_draft@ == if removed {
                old(self).workflow_draft@.remove(idx as int)
            } else {
                old(self).workflow_draft@
            },
            *final(self) == (FunctionRowView {
                workflow_draft: final(self).workflow_draft,
                ..*old(self)
            }),
    {
        if idx < self.workflow_draft.len() {
            self.workflow_draft.remove(idx);
            true
        } else {
            false
        }
    }

    /// Whether `after` is this row made ready to be drawn with `slots`: a
    /// selection beyond them is dropped, and the open editor starts from what
    /// the selected key is bound to.
    pub open spec fn prepared(
        self,
        after: FunctionRowView,
        slots: Seq<KeySlot>,
        bindings: Seq<KeyBinding>,
    ) -> bool {
        &&& after.hovered_key == self.hovered_key
        &&& self.stale(slots.len()) ==> after.selected_key is None && after.no_editor()
        &&& !self.stale(slots.len()) ==> {
            &&& after.selected_key == self.selected_key
            &&& after.active_editor == self.active_editor
            &&& match (self.selected_key, self.active_editor) {
                (Some(selected), Some(kind)) => {
                    let bound = bound_view(slots, bindings, selected as int);
                    if kind == PowerUserKind::Workflow {
                        &&& after.text == self.text
                        &&& if self.workflow_draft@.len() == 0 {
                            crate::binding::step_views(after.workflow_draft@) == match bound {
                                Some(crate::binding::ActionView::Workflow(steps)) => steps,
                                _ => seq![],
                            }
                        } else {
                            after.workflow_draft == self.workflow_draft
                        }
                    } else {
                        &&& after.workflow_draft == self.workflow_draft
                        &&& match self.text {
                            Some(_) => after.text == self.text,
                            None => after.text matches Some(text) && text@ == text_seed(
                                bound,
                                kind,
                            ),
                        }
                    }
                },
                _ => after.same_editor(self),
            }
        }
    }

    /// Makes ready to be drawn: drops a selection that the row of the current
    /// device no longer has, and starts the open editor from what the selected
    /// key is bound to.
    pub fn prepare(&mut self, slots: &Vec<KeySlot>, bindings: &Vec<KeyBinding>)
        requires
            forall|i: int|
                0 <= i < slots@.len() ==> ((#[trigger] slots@[i]).bound matches Some(at) ==> at
                    < bindings@.len()),
        ensures
            old(self).prepared(*final(self), slots@, bindings@),
    {
        if let Some(selected) = self.selected_key {
            if selected >= slots.len() {
                self.selected_key = None;
                self.drop_drafts();
                return;
            }
            if let Some(kind) = self.active_editor {
                assert(slots@[selected as int] == slots[selected as int]);
                let current: Option<&Action> = match slots[selected].bound {
                    Some(at) => Some(&bindings[at].action),
                    None => None,
                };
                match kind {
                    PowerUserKind::Workflow => {
                        if self.workflow_draft.len() == 0 {
                            self.workflow_draft = workflow_editor_seed(current);
                        }
                    },
                    _ => {
                        if self.text.is_none() {
                            self.text = Some(text_editor_seed(current, kind));
                        }
                    },
                }
            }
        }
    }

    /// Whether the selected key is beyond a row of `count` keys.
    pub open spec fn stale(self, count: nat) -> bool {
        self.selected_key matches Some(selected) && selected >= count
    }

    /// What the panel beside the keyboard shows.
    pub open spec fn panel_shown(self) -> Panel {
        match (self.selected_key, self.active_editor) {
            (None, _) => Panel::Closed,
            (Some(_), None) => Panel::Actions,
            (Some(_), Some(PowerUserKind::Workflow)) => Panel::Editor(EditorCard::Workflow),
            (Some(_), Some(kind)) => Panel::Editor(
                if self.text is Some {
                    EditorCard::Text(kind)
                } else {
                    EditorCard::Unavailable
                },
            ),
        }
    }

    /// What the panel beside the keyboard shows.
    pub fn config_panel(&self) -> (panel: Panel)
        ensures
            panel == self.panel_shown(),
    {
        match (self.selected_key, self.active_editor) {
            (None, _) => Panel::Closed,
            (Some(_), None) => Panel::Actions,
            (Some(_), Some(kind)) => Panel::Editor(editor_card(kind, self.text.is_some())),
        }
    }
}

/// What the panel beside the keyboard shows.
#[derive(Debug, Clone, Copy, PartialEq, Eq, Structural)]
pub enum Panel {
    Closed,
    /// The list of actions.
    Actions,
    Editor(EditorCard),
}

fn same_key(a: Option<usize>, b: Option<usize>) -> (same: bool)
    ensures
        same == (a == b),
{
    match (a, b) {
        (Some(a), Some(b)) => a == b,
        (None, None) => true,
        _ => false,
    }
}

/// A key of the row as it is drawn.
#[derive(Debug, Clone, Copy)]
pub struct KeySlot {
    pub idx: usize,
    pub label: &'static str,
    pub trigger: KeyTrigger,
    pub x_frac: i64,
    pub y_frac: i64,
    /// Which binding is the key's.
    pub bound: Option<usize>,
}

/// Whether `found` is the first binding of a key without modifiers.
pub open spec fn is_bound(bindings: Seq<KeyBinding>, keycode: u16, found: Option<usize>) -> bool {
    let trigger = KeyTrigger { keycode, modifiers: 0 };
    match found {
        Some(at) => at < bindings.len() && bindings[at as int].trigger == trigger && forall|i: int|
            0 <= i < at ==> (#[trigger] bindings[i]).trigger != trigger,
        None => forall|i: int| 0 <= i < bindings.len() ==> (#[trigger] bindings[i]).trigger != trigger,
    }
}

fn find_binding(bindings: &Vec<KeyBinding>, keycode: u16) -> (found: Option<usize>)
    ensures
        is_bound(bindings@, keycode, found),
{
    let trigger = KeyTrigger { keycode, modifiers: 0 };
    let mut i: usize = 0;
    while i < bindings.len()
        invariant
            trigger == (KeyTrigger { keycode, modifiers: 0 }),
            i <= bindings@.len(),
            forall|j: int| 0 <= j < i ==> (#[trigger] bindings@[j]).trigger != trigger,
        decreases bindings@.len() - i,
    {
        if bindings[i].trigger == trigger {
            return Some(i);
        }
        i += 1;
    }
    None
}

/// What a slot is bound to.
pub open spec fn bound_view(
    slots: Seq<KeySlot>,
    bindings: Seq<KeyBinding>,
    idx: int,
) -> Option<crate::binding::ActionView> {
    match slots[idx].bound {
        Some(at) => Some(bindings[at as int].action@),
        None => None,
    }
}

/// Whether `slot` is key `idx` of the row, at `point`.
pub open spec fn is_slot(
    slot: KeySlot,
    idx: int,
    point: KeyPoint,
    bindings: Seq<KeyBinding>,
) -> bool {
    &&& slot.idx == idx
    &&& slot.label@ == key_name(idx)
    &&& slot.trigger == (KeyTrigger { keycode: key_code(idx), modifiers: 0 })
    &&& slot.x_frac == point.x_frac
    &&& slot.y_frac == point.y_frac
    &&& is_bound(bindings, key_code(idx), slot.bound)
}

/// Whether `slots` are the keys of the row, as many as have a place.
pub open spec fn are_slots(
    slots: Seq<KeySlot>,
    points: Seq<KeyPoint>,
    bindings: Seq<KeyBinding>,
) -> bool {
    &&& slots.len() == if points.len() <= ROW_KEYS {
        points.len() as int
    } else {
        ROW_KEYS as int
    }
    &&& forall|i: int|
        #![trigger slots[i]]
        0 <= i < slots.len() ==> is_slot(slots[i], i, points[i], bindings)
}

/// The keys of the row as they are drawn: as many as have a place.
pub fn key_slots(points: &Vec<KeyPoint>, bindings: &Vec<KeyBinding>) -> (slots: Vec<KeySlot>)
    ensures
        are_slots(slots@, points@, bindings@),
{
    let mut slots: Vec<KeySlot> = Vec::new();
    let mut idx: usize = 0;
    while idx < points.len() && idx < ROW_KEYS
        invariant
            idx <= points@.len(),
            idx <= ROW_KEYS,
            slots@.len() == idx,
            forall|i: int|
                #![trigger slots@[i]]
                0 <= i < idx ==> is_slot(slots@[i], i, points@[i], bindings@),
        decreases ROW_KEYS - idx,
    {
        let (label, keycode): (&'static str, u16) = function_key(idx);
        slots.push(
            KeySlot {
                idx,
                label,
                trigger: KeyTrigger { keycode, modifiers: 0 },
                x_frac: points[idx].x_frac,
                y_frac: points[idx].y_frac,
                bound: find_binding(bindings, keycode),
            },
        );
        idx += 1;
    }
    slots
}

/// The size of the keyboard's picture: its own proportions, no wider than
/// [`KEYBOARD_W`] and no higher than the window leaves room for.
pub open spec fn render_size(asset: Option<&ResolvedAsset>, viewport_h: u32) -> (int, int) {
    match asset {
        Some(asset) if asset.png_height > 0 => {
            let left = viewport_h - KEYS_VERTICAL_RESERVE - CALLOUT_BAND_H;
            let target_h = if left > KEYBOARD_MIN_IMG_H {
                left as u32
            } else {
                KEYBOARD_MIN_IMG_H
            };
            fitted(asset.png_width, asset.png_height, target_h, KEYBOARD_W)
        },
        _ => (KEYBOARD_W as int, FALLBACK_KEYBOARD_H as int),
    }
}

/// The size of the keyboard's picture.
pub fn keyboard_render_size(asset: Option<&ResolvedAsset>, viewport_h: u32) -> (size: (u32, u32))
    ensures
        (size.0 as int, size.1 as int) == render_size(asset, viewport_h),
{
    match asset {
        Some(asset) if asset.png_height > 0 => {
            let reserve: u32 = KEYS_VERTICAL_RESERVE + CALLOUT_BAND_H;
            let target_h: u32 = if viewport_h > reserve && viewport_h - reserve
                > KEYBOARD_MIN_IMG_H {
                viewport_h - reserve
            } else {
                KEYBOARD_MIN_IMG_H
            };
            asset_dimensions_for_png(asset, target_h, KEYBOARD_W)
        },
        _ => (KEYBOARD_W, FALLBACK_KEYBOARD_H),
    }
}

/// The row as it is drawn.
#[derive(Debug)]
pub struct FunctionRowScreen {
    pub slots: Vec<KeySlot>,
    /// The keyboard's picture, if there is one, and its size.
    pub image: Option<String>,
    pub size: (u32, u32),
    /// Where and in which color the keyboard glows.
    pub glow: Option<(Arc<GlowGeometry>, Rgb)>,
    pub panel: Panel,
}

/// The art of the selected device.
pub open spec fn shown_art(state: Option<&AppState>) -> Option<&ResolvedAsset> {
    match state {
        Some(state) => match state.current() {
            Some(record) => match record.asset {
                Some(asset) => Some(&*asset),
                None => None,
            },
            None => None,
        },
        None => None,
    }
}

impl FunctionRowView {
    /// What is drawn of the selected keyboard, with `bindings` what its keys are
    /// bound to, and `transient` whether its settings key names no physical
    /// device.
    pub fn render(
        &mut self,
        state: Option<&AppState>,
        bindings: &Vec<KeyBinding>,
        transient: bool,
        viewport_h: u32,
    ) -> (screen: FunctionRowScreen)
        ensures
            exists|points: Seq<KeyPoint>|
                shows_keys(points, shown_art(state)) && #[trigger] are_slots(
                    screen.slots@,
                    points,
                    bindings@,
                ),
            old(self).prepared(*final(self), screen.slots@, bindings@),
            screen.panel == final(self).panel_shown(),
            owned_view(screen.image) == match shown_art(state) {
                Some(asset) => Some(asset.image_path@),
                None => None,
            },
            (screen.size.0 as int, screen.size.1 as int) == render_size(
                shown_art(state),
                viewport_h,
            ),
            screen.glow == match state {
                Some(state) => match state.current() {
                    Some(record) => glow_of(*state, record, transient),
                    None => None,
                },
                None => None,
            },
    {
        let record: Option<&DeviceRecord> = match state {
            Some(state) => state.current_record(),
            None => None,
        };
        let asset: Option<&ResolvedAsset> = match record {
            Some(record) => match &record.asset {
                Some(asset) => Some(&**asset),
                None => None,
            },
            None => None,
        };
        let points = key_points(asset);
        let slots = key_slots(&points, bindings);
        self.prepare(&slots, bindings);
        let glow = match (state, record) {
            (Some(state), Some(record)) => keyboard_glow(state, record, transient),
            _ => None,
        };
        let image = match asset {
            Some(asset) => Some(asset.image_path.clone()),
            None => None,
        };
        let size: (u32, u32) = keyboard_render_size(asset, viewport_h);
        let screen = FunctionRowScreen { slots, image, size, glow, panel: self.config_panel() };
        assert(shows_keys(points@, asset) && are_slots(screen.slots@, points@, bindings@));
        screen
    }
}

/// A share of a span that may be negative, rounded towards nothing.
pub open spec fn spread(idx: int, span: int, steps: int) -> int {
    if span >= 0 {
        (idx * span) / steps
    } else {
        -((idx * -span) / steps)
    }
}

/// Where the centre of callout `idx` of `count` is: spread evenly over the
/// width, since the keys themselves may be too close together.
pub open spec fn callout_x(idx: int, count: int, image_w: u32) -> int {
    if count <= 1 {
        image_w as int / 2
    } else {
        CALLOUT_MARGIN + spread(idx, image_w - 2 * CALLOUT_MARGIN, count - 1)
    }
}

/// Where the centre of callout `idx` of `count` is.
pub fn callout_center_x(idx: usize, count: usize, image_w: u32) -> (x: i128)
    ensures
        x == callout_x(idx as int, count as int, image_w),
        -0x1_0000_0000_0000_0000_0000_0000 <= x <= 0x1_0000_0000_0000_0000_0000_0000,
{
    if count <= 1 {
        return image_w as i128 / 2;
    }
    let span: i128 = image_w as i128 - 2 * CALLOUT_MARGIN as i128;
    let steps: i128 = count as i128 - 1;
    let size: i128 = if span >= 0 {
        span
    } else {
        -span
    };
    assert(0 <= idx * size <= 0xffff_ffff_ffff_ffff * 0xffff_ffff) by (nonlinear_arith)
        requires
            0 <= idx <= 0xffff_ffff_ffff_ffff,
            0 <= size <= 0xffff_ffff,
    ;
    let part: i128 = (idx as i128 * size) / steps;
    assert(0 <= part <= idx * size) by (nonlinear_arith)
        requires
            part == (idx * size) / steps as int,
            0 <= idx * size,
            0 < steps,
    ;
    if span >= 0 {
        CALLOUT_MARGIN as i128 + part
    } else {
        CALLOUT_MARGIN as i128 - part
    }
}

/// `value` brought into the range from `0` to `most`.
pub open spec fn bounded(value: int, most: int) -> int {
    if value < 0 {
        0
    } else if value > most {
        most
    } else {
        value
    }
}

fn bound(value: i128, most: u32) -> (part: u32)
    ensures
        part == bounded(value as int, most as int),
{
    if value < 0 {
        0
    } else if value > most as i128 {
        most
    } else {
        value as u32
    }
}

/// Where callout `idx` of `count` begins.
pub fn callout_left_px(idx: usize, count: usize, image_w: u32, callout_w: u32) -> (left: u32)
    requires
        callout_w <= image_w,
    ensures
        left == bounded(
            callout_x(idx as int, count as int, image_w) - callout_w as int / 2,
            image_w - callout_w,
        ),
{
    bound(callout_center_x(idx, count, image_w) - callout_w as i128 / 2, image_w - callout_w)
}

/// Whether callout `idx` is in the lower lane.
pub fn callout_lane_is_lower(idx: usize) -> (lower: bool)
    ensures
        lower == (idx % 2 == 0),
{
    idx % 2 == 0
}

/// The top of callout `idx`.
pub open spec fn callout_top(idx: int) -> u32 {
    if idx % 2 == 0 {
        KEY_CALLOUT_TOP_LOWER
    } else {
        KEY_CALLOUT_TOP_UPPER
    }
}

/// The top of callout `idx`.
pub fn callout_top_px(idx: usize) -> (top: u32)
    ensures
        top == callout_top(idx as int),
{
    if callout_lane_is_lower(idx) {
        KEY_CALLOUT_TOP_LOWER
    } else {
        KEY_CALLOUT_TOP_UPPER
    }
}

/// Where the rectangle over a key begins: centred on the key, within the
/// picture.
pub open spec fn target_start(frac: int, size: u32, target: u32) -> int {
    bounded(share(frac, size as int) - target as int / 2, size - target)
}

fn key_target_start(frac: i64, size: u32, target: u32) -> (start: u32)
    requires
        target <= size,
    ensures
        start == target_start(frac as int, size, target),
{
    bound(share_of(frac, size) - (target / 2) as i128, size - target)
}

fn share_of(frac: i64, size: u32) -> (length: i128)
    ensures
        length == share(frac as int, size as int),
        -0x8000_0000_0000_0000 * 0x1_0000_0000 <= length <= 0x8000_0000_0000_0000 * 0x1_0000_0000,
{
    assert(-0x8000_0000_0000_0000 * 0x1_0000_0000 <= frac * size <= 0x8000_0000_0000_0000
        * 0x1_0000_0000) by (nonlinear_arith)
        requires
            -0x8000_0000_0000_0000 <= frac <= 0x8000_0000_0000_0000,
            0 <= size <= 0x1_0000_0000,
    ;
    let product: i128 = frac as i128 * size as i128;
    let whole: i128 = WHOLE as i128;
    if product >= 0 {
        product / whole
    } else {
        let above: i128 = -product + (whole - 1);
        assert(product as int / 1_000_000 == -(above as int / 1_000_000)) by (nonlinear_arith)
            requires
                above == -product + 999_999,
        ;
        -(above / whole)
    }
}

/// Where the rectangle over a key begins from the left.
pub fn key_target_left_px(x_frac: i64, img_w: u32, target_w: u32) -> (left: u32)
    requires
        target_w <= img_w,
    ensures
        left == target_start(x_frac as int, img_w, target_w),
{
    key_target_start(x_frac, img_w, target_w)
}

/// Where the rectangle over a key begins from the top.
pub fn key_target_top_px(y_frac: i64, img_h: u32, target_h: u32) -> (top: u32)
    requires
        target_h <= img_h,
    ensures
        top == target_start(y_frac as int, img_h, target_h),
{
    key_target_start(y_frac, img_h, target_h)
}

/// The line from a callout to its key: down from the callout, then to the key.
#[derive(Debug, Clone, Copy, PartialEq, Eq, Structural)]
pub struct Leader {
    pub callout_x: i128,
    pub callout_bottom: u32,
    pub elbow_y: u32,
    pub key_x: i128,
    pub key_y: i128,
    pub highlighted: bool,
}

/// The line from callout `slot.idx` of `count` to its key.
pub fn leader(
    slot: &KeySlot,
    count: usize,
    img: (u32, u32),
    selected: Option<usize>,
    hovered: Option<usize>,
) -> (line: Leader)
    ensures
        line.callout_x == callout_x(slot.idx as int, count as int, img.0),
        line.callout_bottom == callout_top(slot.idx as int) + KEY_CALLOUT_H,
        line.elbow_y == CALLOUT_BAND_H - 14_000,
        line.key_x == share(slot.x_frac as int, img.0 as int),
        line.key_y == CALLOUT_BAND_H + share(slot.y_frac as int, img.1 as int),
        line.highlighted == (selected == Some(slot.idx) || hovered == Some(slot.idx)),
{
    let (img_w, img_h): (u32, u32) = img;
    Leader {
        callout_x: callout_center_x(slot.idx, count, img_w),
        callout_bottom: callout_top_px(slot.idx) + KEY_CALLOUT_H,
        elbow_y: CALLOUT_BAND_H - 14_000,
        key_x: share_of(slot.x_frac, img_w),
        key_y: CALLOUT_BAND_H as i128 + share_of(slot.y_frac, img_h),
        highlighted: key_is_highlighted(slot.idx, selected, hovered),
    }
}

/// A callout as it is drawn.
#[derive(Debug, Clone, Copy, PartialEq, Eq, Structural)]
pub struct KeyCallout {
    pub left: u32,
    pub top: u32,
    pub highlighted: bool,
    /// Whether it shows the icon of a bound action, or that it has none.
    pub bound: bool,
}

/// The callout of a key.
pub fn key_callout(
    slot: &KeySlot,
    count: usize,
    img_w: u32,
    selected: Option<usize>,
    hovered: Option<usize>,
) -> (callout: KeyCallout)
    requires
        KEY_CALLOUT_W <= img_w,
    ensures
        callout.left == bounded(
            callout_x(slot.idx as int, count as int, img_w) - KEY_CALLOUT_W as int / 2,
            img_w - KEY_CALLOUT_W,
        ),
        callout.top == callout_top(slot.idx as int),
        callout.highlighted == (selected == Some(slot.idx) || hovered == Some(slot.idx)),
        callout.bound == (slot.bound is Some),
{
    KeyCallout {
        left: callout_left_px(slot.idx, count, img_w, KEY_CALLOUT_W),
        top: callout_top_px(slot.idx),
        highlighted: key_is_highlighted(slot.idx, selected, hovered),
        bound: slot.bound.is_some(),
    }
}

/// An entry of the list that opens an editor.
#[derive(Debug)]
pub struct PowerUserRow {
    pub kind: PowerUserKind,
    pub label: &'static str,
    pub icon: &'static str,
    /// Whether the key's action is edited there.
    pub selected: bool,
}

/// Whether `row` opens the editor of this kind.
pub open spec fn is_row_of(
    row: PowerUserRow,
    kind: PowerUserKind,
    label: Seq<char>,
    icon: Seq<char>,
    current: Option<ActionView>,
) -> bool {
    &&& row.kind == kind
    &&& row.label@ == label
    &&& row.icon@ == icon
    &&& row.selected == edits(current, kind)
}

/// The entries that open an editor, with that of the key's action marked. They
/// follow the actions that need none.
pub fn panel_action_rows(current: Option<&Action>) -> (rows: [PowerUserRow; 4])
    ensures
        is_row_of(
            rows@[0],
            PowerUserKind::TypeText,
            "Type Text\u{2026}"@,
            "action-icons/keyboard.svg"@,
            action_view(current),
        ),
        is_row_of(
            rows@[1],
            PowerUserKind::RunAppleScript,
            "Run AppleScript\u{2026}"@,
            "action-icons/terminal.svg"@,
            action_view(current),
        ),
        is_row_of(
            rows@[2],
            PowerUserKind::RunShellCommand,
            "Run Shell Command\u{2026}"@,
            "action-icons/terminal.svg"@,
            action_view(current),
        ),
        is_row_of(
            rows@[3],
            PowerUserKind::Workflow,
            "Workflow\u{2026}"@,
            "action-icons/list-checks.svg"@,
            action_view(current),
        ),
{
    [
        power_user_row(PowerUserKind::TypeText, "Type Text\u{2026}", "action-icons/keyboard.svg", current),
        power_user_row(PowerUserKind::RunAppleScript, "Run AppleScript\u{2026}", "action-icons/terminal.svg", current),
        power_user_row(PowerUserKind::RunShellCommand, "Run Shell Command\u{2026}", "action-icons/terminal.svg", current),
        power_user_row(PowerUserKind::Workflow, "Workflow\u{2026}", "action-icons/list-checks.svg", current),
    ]
}

fn power_user_row(
    kind: PowerUserKind,
    label: &'static str,
    icon: &'static str,
    current: Option<&Action>,
) -> (row: PowerUserRow)
    ensures
        is_row_of(row, kind, label@, icon@, action_view(current)),
{
    PowerUserRow { kind, label, icon, selected: power_user_selected(current, kind) }
}

/// Neighbours in a lane do not overlap, for any number of keys that a row can
/// have: the bubbles of every second key are at least a bubble's width apart.
pub proof fn same_lane_callouts_never_overlap(idx: int, count: int)
    requires
        3 <= count <= ROW_KEYS,
        0 <= idx,
        idx + 2 < count,
    ensures
        callout_x(idx + 2, count, KEYBOARD_W) - callout_x(idx, count, KEYBOARD_W)
            >= KEY_CALLOUT_W,
        callout_top(idx) == callout_top(idx + 2),
        callout_top(idx) != callout_top(idx + 1),
{
    let span = KEYBOARD_W - 2 * CALLOUT_MARGIN;
    let steps = count - 1;
    let a = (idx * span) / steps;
    let b = ((idx + 2) * span) / steps;
    assert((b - a + 1) * steps > 2 * span) by (nonlinear_arith)
        requires
            a == (idx * span) / steps,
            b == ((idx + 2) * span) / steps,
            0 < steps,
            0 <= idx,
            0 <= span,
    ;
    assert(b - a >= 60_000) by (nonlinear_arith)
        requires
            (b - a + 1) * steps > 2 * span,
            0 < steps <= 19,
            span == 632_000,
    ;
}

/// Callouts are spread from margin to margin.
pub proof fn callouts_fill_the_width(count: int, image_w: u32)
    requires
        2 <= count,
        2 * CALLOUT_MARGIN <= image_w,
    ensures
        callout_x(0, count, image_w) == CALLOUT_MARGIN,
        callout_x(count - 1, count, image_w) == image_w - CALLOUT_MARGIN,
{
    let span = image_w - 2 * CALLOUT_MARGIN;
    assert((0 * span) / (count - 1) == 0) by (nonlinear_arith)
        requires
            2 <= count,
    ;
    assert(((count - 1) * span) / (count - 1) == span) by (nonlinear_arith)
        requires
            2 <= count,
    ;
}

} // verus!
