//! The presets of the thumb wheel: pairs of actions for its two directions.

use crate::binding::{Action, ActionView};
use vstd::prelude::*;

verus! {

/// What the thumb wheel does when it turns backward and when it turns forward.
#[derive(Debug, PartialEq, Eq)]
pub struct ThumbwheelPair {
    pub backward: Action,
    pub forward: Action,
}

/// A pair of actions that the picker offers.
#[derive(Debug, Clone, Copy, PartialEq, Eq, Structural)]
pub enum ThumbwheelPreset {
    BackForward,
    UndoRedo,
    BrowserHistory,
    Tabs,
    Desktops,
    Tracks,
    Volume,
    VolumeReversed,
    CycleDpi,
    VerticalScroll,
    VerticalScrollReversed,
    HorizontalScroll,
    HorizontalScrollReversed,
}

/// All presets, in the order that the picker lists them.
pub open spec fn all_presets() -> Seq<ThumbwheelPreset> {
    seq![
        ThumbwheelPreset::BackForward,
        ThumbwheelPreset::UndoRedo,
        ThumbwheelPreset::BrowserHistory,
        ThumbwheelPreset::Tabs,
        ThumbwheelPreset::Desktops,
        ThumbwheelPreset::Tracks,
        ThumbwheelPreset::Volume,
        ThumbwheelPreset::VolumeReversed,
        ThumbwheelPreset::CycleDpi,
        ThumbwheelPreset::VerticalScroll,
        ThumbwheelPreset::VerticalScrollReversed,
        ThumbwheelPreset::HorizontalScroll,
        ThumbwheelPreset::HorizontalScrollReversed,
    ]
}

impl ThumbwheelPreset {
    /// All presets, in the order that the picker lists them.
    pub fn all() -> (presets: [ThumbwheelPreset; 13])
        ensures
            presets@ == all_presets(),
    {
        [
            ThumbwheelPreset::BackForward,
            ThumbwheelPreset::UndoRedo,
            ThumbwheelPreset::BrowserHistory,
            ThumbwheelPreset::Tabs,
            ThumbwheelPreset::Desktops,
            ThumbwheelPreset::Tracks,
            ThumbwheelPreset::Volume,
            ThumbwheelPreset::VolumeReversed,
            ThumbwheelPreset::CycleDpi,
            ThumbwheelPreset::VerticalScroll,
            ThumbwheelPreset::VerticalScrollReversed,
            ThumbwheelPreset::HorizontalScroll,
            ThumbwheelPreset::HorizontalScrollReversed,
        ]
    }

    /// The action for the wheel turning backward.
    pub open spec fn backward(self) -> Action {
        match self {
            ThumbwheelPreset::BackForward => Action::MouseBack,
            ThumbwheelPreset::UndoRedo => Action::Undo,
            ThumbwheelPreset::BrowserHistory => Action::BrowserBack,
            ThumbwheelPreset::Tabs => Action::PrevTab,
            ThumbwheelPreset::Desktops => Action::PreviousDesktop,
            ThumbwheelPreset::Tracks => Action::PrevTrack,
            ThumbwheelPreset::Volume => Action::VolumeDown,
            ThumbwheelPreset::VolumeReversed => Action::VolumeUp,
            ThumbwheelPreset::CycleDpi => Action::CycleDpiPresets,
            ThumbwheelPreset::VerticalScroll => Action::ScrollDown,
            ThumbwheelPreset::VerticalScrollReversed => Action::ScrollUp,
            ThumbwheelPreset::HorizontalScroll => Action::HorizontalScrollRight,
            ThumbwheelPreset::HorizontalScrollReversed => Action::HorizontalScrollLeft,
        }
    }

    /// The action for the wheel turning forward.
    pub open spec fn forward(self) -> Action {
        match self {
            ThumbwheelPreset::BackForward => Action::MouseForward,
            ThumbwheelPreset::UndoRedo => Action::Redo,
            ThumbwheelPreset::BrowserHistory => Action::BrowserForward,
            ThumbwheelPreset::Tabs => Action::NextTab,
            ThumbwheelPreset::Desktops => Action::NextDesktop,
            ThumbwheelPreset::Tracks => Action::NextTrack,
            ThumbwheelPreset::Volume => Action::VolumeUp,
            ThumbwheelPreset::VolumeReversed => Action::VolumeDown,
            ThumbwheelPreset::CycleDpi => Action::CycleDpiPresets,
            ThumbwheelPreset::VerticalScroll => Action::ScrollUp,
            ThumbwheelPreset::VerticalScrollReversed => Action::ScrollDown,
            ThumbwheelPreset::HorizontalScroll => Action::HorizontalScrollLeft,
            ThumbwheelPreset::HorizontalScrollReversed => Action::HorizontalScrollRight,
        }
    }

    /// The pair of actions.
    pub fn pair(self) -> (pair: ThumbwheelPair)
        ensures
            pair == (ThumbwheelPair { backward: self.backward(), forward: self.forward() }),
    {
        let (backward, forward) = match self {
            ThumbwheelPreset::BackForward => (Action::MouseBack, Action::MouseForward),
            ThumbwheelPreset::UndoRedo => (Action::Undo, Action::Redo),
            ThumbwheelPreset::BrowserHistory => (Action::BrowserBack, Action::BrowserForward),
            ThumbwheelPreset::Tabs => (Action::PrevTab, Action::NextTab),
            ThumbwheelPreset::Desktops => (Action::PreviousDesktop, Action::NextDesktop),
            ThumbwheelPreset::Tracks => (Action::PrevTrack, Action::NextTrack),
            ThumbwheelPreset::Volume => (Action::VolumeDown, Action::VolumeUp),
            ThumbwheelPreset::VolumeReversed => (Action::VolumeUp, Action::VolumeDown),
            ThumbwheelPreset::CycleDpi => (Action::CycleDpiPresets, Action::CycleDpiPresets),
            ThumbwheelPreset::VerticalScroll => (Action::ScrollDown, Action::ScrollUp),
            ThumbwheelPreset::VerticalScrollReversed => (Action::ScrollUp, Action::ScrollDown),
            ThumbwheelPreset::HorizontalScroll => (Action::HorizontalScrollRight, Action::HorizontalScrollLeft),
            ThumbwheelPreset::HorizontalScrollReversed => (Action::HorizontalScrollLeft, Action::HorizontalScrollRight),
        };
        ThumbwheelPair { backward, forward }
    }

    /// Whether the preset is exactly this pair.
    pub open spec fn is_pair(self, backward: ActionView, forward: ActionView) -> bool {
        self.backward()@ == backward && self.forward()@ == forward
    }

    /// The preset that is exactly this pair. Any other pair is a custom one.
    pub fn recognize(backward: &Action, forward: &Action) -> (found: Option<ThumbwheelPreset>)
        ensures
            match found {
                Some(preset) => preset.is_pair(backward@, forward@),
                None => forall|preset: ThumbwheelPreset|
                    #![trigger preset.backward()]
                    preset.backward()@ != backward@ || preset.forward()@ != forward@,
            },
    {
        let presets = ThumbwheelPreset::all();
        let mut i: usize = 0;
        while i < 13
            invariant
                i <= 13,
                presets@ == all_presets(),
                forall|j: int|
                    0 <= j < i ==> !(#[trigger] all_presets()[j]).is_pair(backward@, forward@),
            decreases 13 - i,
        {
            let pair = presets[i].pair();
            if pair.backward.same(backward) && pair.forward.same(forward) {
                return Some(presets[i]);
            }
            assert(!all_presets()[i as int].is_pair(backward@, forward@));
            i += 1;
        }
        proof {
            assert forall|preset: ThumbwheelPreset| #[trigger]
                preset.backward()@ != backward@ || preset.forward()@ != forward@ by {
                listed(preset);
                let at = preset.place();
                assert(!all_presets()[at].is_pair(backward@, forward@));
            }
        }
        None
    }

    /// The place of a preset in the list.
    pub open spec fn place(self) -> int {
        match self {
            ThumbwheelPreset::BackForward => 0,
            ThumbwheelPreset::UndoRedo => 1,
            ThumbwheelPreset::BrowserHistory => 2,
            ThumbwheelPreset::Tabs => 3,
            ThumbwheelPreset::Desktops => 4,
            ThumbwheelPreset::Tracks => 5,
            ThumbwheelPreset::Volume => 6,
            ThumbwheelPreset::VolumeReversed => 7,
            ThumbwheelPreset::CycleDpi => 8,
            ThumbwheelPreset::VerticalScroll => 9,
            ThumbwheelPreset::VerticalScrollReversed => 10,
            ThumbwheelPreset::HorizontalScroll => 11,
            ThumbwheelPreset::HorizontalScrollReversed => 12,
        }
    }

    /// The name of a preset.
    pub open spec fn name(self) -> Seq<char> {
        match self {
            ThumbwheelPreset::BackForward => "Back / Forward"@,
            ThumbwheelPreset::UndoRedo => "Undo / Redo"@,
            ThumbwheelPreset::BrowserHistory => "Browser Back / Forward"@,
            ThumbwheelPreset::Tabs => "Previous / Next Tab"@,
            ThumbwheelPreset::Desktops => "Previous / Next Desktop"@,
            ThumbwheelPreset::Tracks => "Previous / Next Track"@,
            ThumbwheelPreset::Volume => "Volume Down / Up"@,
            ThumbwheelPreset::VolumeReversed => "Volume Up / Down"@,
            ThumbwheelPreset::CycleDpi => "Cycle DPI Presets"@,
            ThumbwheelPreset::VerticalScroll => "Vertical Scroll"@,
            ThumbwheelPreset::VerticalScrollReversed => "Vertical Scroll (Reversed)"@,
            ThumbwheelPreset::HorizontalScroll => "Horizontal Scroll"@,
            ThumbwheelPreset::HorizontalScrollReversed => "Horizontal Scroll (Reversed)"@,
        }
    }

    /// The name of a preset.
    pub fn label(self) -> (label: &'static str)
        ensures
            label@ == self.name(),
    {
        match self {
            ThumbwheelPreset::BackForward => "Back / Forward",
            ThumbwheelPreset::UndoRedo => "Undo / Redo",
            ThumbwheelPreset::BrowserHistory => "Browser Back / Forward",
            ThumbwheelPreset::Tabs => "Previous / Next Tab",
            ThumbwheelPreset::Desktops => "Previous / Next Desktop",
            ThumbwheelPreset::Tracks => "Previous / Next Track",
            ThumbwheelPreset::Volume => "Volume Down / Up",
            ThumbwheelPreset::VolumeReversed => "Volume Up / Down",
            ThumbwheelPreset::CycleDpi => "Cycle DPI Presets",
            ThumbwheelPreset::VerticalScroll => "Vertical Scroll",
            ThumbwheelPreset::VerticalScrollReversed => "Vertical Scroll (Reversed)",
            ThumbwheelPreset::HorizontalScroll => "Horizontal Scroll",
            ThumbwheelPreset::HorizontalScrollReversed => "Horizontal Scroll (Reversed)",
        }
    }

    /// The icon of a preset.
    pub open spec fn picture(self) -> Seq<char> {
        match self {
            ThumbwheelPreset::BackForward => "action-icons/circle-arrow-right.svg"@,
            ThumbwheelPreset::UndoRedo => "action-icons/redo-2.svg"@,
            ThumbwheelPreset::BrowserHistory => "action-icons/arrow-right.svg"@,
            ThumbwheelPreset::Tabs => "action-icons/chevron-right.svg"@,
            ThumbwheelPreset::Desktops => "action-icons/square-arrow-right.svg"@,
            ThumbwheelPreset::Tracks => "action-icons/skip-forward.svg"@,
            ThumbwheelPreset::Volume => "action-icons/volume-2.svg"@,
            ThumbwheelPreset::VolumeReversed => "action-icons/volume-2.svg"@,
            ThumbwheelPreset::CycleDpi => "action-icons/gauge.svg"@,
            ThumbwheelPreset::VerticalScroll => "action-icons/chevrons-up.svg"@,
            ThumbwheelPreset::VerticalScrollReversed => "action-icons/chevrons-up.svg"@,
            ThumbwheelPreset::HorizontalScroll => "action-icons/chevrons-right.svg"@,
            ThumbwheelPreset::HorizontalScrollReversed => "action-icons/chevrons-right.svg"@,
        }
    }

    /// The icon of a preset.
    pub fn icon(self) -> (icon: &'static str)
        ensures
            icon@ == self.picture(),
    {
        match self {
            ThumbwheelPreset::BackForward => "action-icons/circle-arrow-right.svg",
            ThumbwheelPreset::UndoRedo => "action-icons/redo-2.svg",
            ThumbwheelPreset::BrowserHistory => "action-icons/arrow-right.svg",
            ThumbwheelPreset::Tabs => "action-icons/chevron-right.svg",
            ThumbwheelPreset::Desktops => "action-icons/square-arrow-right.svg",
            ThumbwheelPreset::Tracks => "action-icons/skip-forward.svg",
            ThumbwheelPreset::Volume => "action-icons/volume-2.svg",
            ThumbwheelPreset::VolumeReversed => "action-icons/volume-2.svg",
            ThumbwheelPreset::CycleDpi => "action-icons/gauge.svg",
            ThumbwheelPreset::VerticalScroll => "action-icons/chevrons-up.svg",
            ThumbwheelPreset::VerticalScrollReversed => "action-icons/chevrons-up.svg",
            ThumbwheelPreset::HorizontalScroll => "action-icons/chevrons-right.svg",
            ThumbwheelPreset::HorizontalScrollReversed => "action-icons/chevrons-right.svg",
        }
    }
}

proof fn listed(preset: ThumbwheelPreset)
    ensures
        0 <= preset.place() < all_presets().len(),
        all_presets()[preset.place()] == preset,
{
}

/// No pair of actions is two presets, so a preset that was picked is recognized
/// again.
pub proof fn presets_are_recognized(a: ThumbwheelPreset, b: ThumbwheelPreset)
    requires
        b.is_pair(a.backward()@, a.forward()@),
    ensures
        a == b,
{
}

/// A preset that is reversed is another preset, or none at all.
pub proof fn reversed_pairs_are_told_apart(preset: ThumbwheelPreset)
    requires
        preset != ThumbwheelPreset::CycleDpi,
    ensures
        !preset.is_pair(preset.forward()@, preset.backward()@),
{
}

} // verus!
