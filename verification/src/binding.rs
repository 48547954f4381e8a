//! Buttons, gestures, the actions that they are bound to, and maps of them.

use crate::text::same_text;
use vstd::prelude::*;

verus! {

/// A button that an action can be bound to.
#[derive(Debug, Clone, Copy, PartialEq, Eq, Structural)]
pub enum ButtonId {
    LeftClick,
    RightClick,
    MiddleClick,
    Back,
    Forward,
    DpiToggle,
    DpiUp,
    DpiDown,
    ProfileCycle,
    WheelTiltLeft,
    WheelTiltRight,
    GestureButton,
    HapticPanel,
    ThumbwheelScrollUp,
    ThumbwheelScrollDown,
}

/// A direction of a gesture.
#[derive(Debug, Clone, Copy, PartialEq, Eq, Structural)]
pub enum GestureDirection {
    Up,
    Down,
    Left,
    Right,
    Click,
}

impl GestureDirection {
    /// All directions.
    pub fn all() -> (directions: [GestureDirection; 5])
        ensures
            directions@ == seq![
                GestureDirection::Up,
                GestureDirection::Down,
                GestureDirection::Left,
                GestureDirection::Right,
                GestureDirection::Click,
            ],
    {
        [
            GestureDirection::Up,
            GestureDirection::Down,
            GestureDirection::Left,
            GestureDirection::Right,
            GestureDirection::Click,
        ]
    }
}

/// A step of a workflow.
#[derive(Debug, PartialEq, Eq)]
pub enum WorkflowStep {
    TypeText(String),
    /// A key combination, as it is written out.
    PressKey(String),
    Delay { millis: u64 },
    RunAppleScript(String),
    RunShellCommand(String),
}

/// What a [`WorkflowStep`] holds.
pub enum WorkflowStepView {
    TypeText(Seq<char>),
    PressKey(Seq<char>),
    Delay { millis: u64 },
    RunAppleScript(Seq<char>),
    RunShellCommand(Seq<char>),
}

impl View for WorkflowStep {
    type V = WorkflowStepView;

    open spec fn view(&self) -> WorkflowStepView {
        match *self {
            WorkflowStep::TypeText(text) => WorkflowStepView::TypeText(text@),
            WorkflowStep::PressKey(combo) => WorkflowStepView::PressKey(combo@),
            WorkflowStep::Delay { millis } => WorkflowStepView::Delay { millis },
            WorkflowStep::RunAppleScript(text) => WorkflowStepView::RunAppleScript(text@),
            WorkflowStep::RunShellCommand(text) => WorkflowStepView::RunShellCommand(text@),
        }
    }
}

impl Clone for WorkflowStep {
    fn clone(&self) -> (copy: Self)
        ensures
            copy == *self,
    {
        match self {
            WorkflowStep::TypeText(text) => WorkflowStep::TypeText(text.clone()),
            WorkflowStep::PressKey(combo) => WorkflowStep::PressKey(combo.clone()),
            WorkflowStep::Delay { millis } => WorkflowStep::Delay { millis: *millis },
            WorkflowStep::RunAppleScript(text) => WorkflowStep::RunAppleScript(text.clone()),
            WorkflowStep::RunShellCommand(text) => WorkflowStep::RunShellCommand(text.clone()),
        }
    }
}

impl WorkflowStep {
    fn same(&self, other: &WorkflowStep) -> (same: bool)
        ensures
            same == (self@ == other@),
    {
        match (self, other) {
            (WorkflowStep::TypeText(a), WorkflowStep::TypeText(b)) => same_text(
                a.as_str(),
                b.as_str(),
            ),
            (WorkflowStep::PressKey(a), WorkflowStep::PressKey(b)) => same_text(
                a.as_str(),
                b.as_str(),
            ),
            (WorkflowStep::Delay { millis: a }, WorkflowStep::Delay { millis: b }) => *a == *b,
            (WorkflowStep::RunAppleScript(a), WorkflowStep::RunAppleScript(b)) => same_text(
                a.as_str(),
                b.as_str(),
            ),
            (WorkflowStep::RunShellCommand(a), WorkflowStep::RunShellCommand(b)) => same_text(
                a.as_str(),
                b.as_str(),
            ),
            _ => false,
        }
    }
}

/// What the steps of a workflow hold.
pub open spec fn step_views(steps: Seq<WorkflowStep>) -> Seq<WorkflowStepView> {
    steps.map_values(|step: WorkflowStep| step@)
}

/// A copy of the steps of a workflow.
pub fn copied_steps(steps: &Vec<WorkflowStep>) -> (copy: Vec<WorkflowStep>)
    ensures
        copy@ == steps@,
{
    let mut copy: Vec<WorkflowStep> = Vec::new();
    let mut i: usize = 0;
    while i < steps.len()
        invariant
            i <= steps@.len(),
            copy@ =~= steps@.take(i as int),
        decreases steps@.len() - i,
    {
        copy.push(steps[i].clone());
        i += 1;
    }
    copy
}

fn same_steps(a: &Vec<WorkflowStep>, b: &Vec<WorkflowStep>) -> (same: bool)
    ensures
        same == (step_views(a@) == step_views(b@)),
{
    if a.len() != b.len() {
        assert(step_views(a@).len() != step_views(b@).len());
        return false;
    }
    let mut i: usize = 0;
    while i < a.len()
        invariant
            i <= a@.len(),
            a@.len() == b@.len(),
            forall|j: int| 0 <= j < i ==> (#[trigger] a@[j])@ == b@[j]@,
        decreases a@.len() - i,
    {
        if !a[i].same(&b[i]) {
            assert(step_views(a@)[i as int] != step_views(b@)[i as int]);
            return false;
        }
        i += 1;
    }
    assert(step_views(a@) =~= step_views(b@));
    true
}

/// What a button does.
#[derive(Debug, PartialEq, Eq)]
pub enum Action {
    /// Does nothing.
    Nothing,
    MouseBack,
    MouseForward,
    Undo,
    Redo,
    BrowserBack,
    BrowserForward,
    PrevTab,
    NextTab,
    PreviousDesktop,
    NextDesktop,
    PrevTrack,
    NextTrack,
    VolumeDown,
    VolumeUp,
    CycleDpiPresets,
    ScrollDown,
    ScrollUp,
    HorizontalScrollLeft,
    HorizontalScrollRight,
    /// Any other action of the catalog, by its number there.
    Catalog(u32),
    /// A key combination, as it is written out.
    CustomShortcut(String),
    TypeText(String),
    RunAppleScript(String),
    RunShellCommand(String),
    Workflow(Vec<WorkflowStep>),
}

/// What an [`Action`] holds. Actions without a payload are told apart by a
/// number.
pub enum ActionView {
    Plain(u8),
    Catalog(u32),
    CustomShortcut(Seq<char>),
    TypeText(Seq<char>),
    RunAppleScript(Seq<char>),
    RunShellCommand(Seq<char>),
    Workflow(Seq<WorkflowStepView>),
}

impl View for Action {
    type V = ActionView;

    open spec fn view(&self) -> ActionView {
        match *self {
            Action::Nothing => ActionView::Plain(0),
            Action::MouseBack => ActionView::Plain(1),
            Action::MouseForward => ActionView::Plain(2),
            Action::Undo => ActionView::Plain(3),
            Action::Redo => ActionView::Plain(4),
            Action::BrowserBack => ActionView::Plain(5),
            Action::BrowserForward => ActionView::Plain(6),
            Action::PrevTab => ActionView::Plain(7),
            Action::NextTab => ActionView::Plain(8),
            Action::PreviousDesktop => ActionView::Plain(9),
            Action::NextDesktop => ActionView::Plain(10),
            Action::PrevTrack => ActionView::Plain(11),
            Action::NextTrack => ActionView::Plain(12),
            Action::VolumeDown => ActionView::Plain(13),
            Action::VolumeUp => ActionView::Plain(14),
            Action::CycleDpiPresets => ActionView::Plain(15),
            Action::ScrollDown => ActionView::Plain(16),
            Action::ScrollUp => ActionView::Plain(17),
            Action::HorizontalScrollLeft => ActionView::Plain(18),
            Action::HorizontalScrollRight => ActionView::Plain(19),
            Action::Catalog(number) => ActionView::Catalog(number),
            Action::CustomShortcut(combo) => ActionView::CustomShortcut(combo@),
            Action::TypeText(text) => ActionView::TypeText(text@),
            Action::RunAppleScript(text) => ActionView::RunAppleScript(text@),
            Action::RunShellCommand(text) => ActionView::RunShellCommand(text@),
            Action::Workflow(steps) => ActionView::Workflow(step_views(steps@)),
        }
    }
}

impl Clone for Action {
    fn clone(&self) -> (copy: Self)
        ensures
            copy@ == self@,
    {
        match self {
            Action::Nothing => Action::Nothing,
            Action::MouseBack => Action::MouseBack,
            Action::MouseForward => Action::MouseForward,
            Action::Undo => Action::Undo,
            Action::Redo => Action::Redo,
            Action::BrowserBack => Action::BrowserBack,
            Action::BrowserForward => Action::BrowserForward,
            Action::PrevTab => Action::PrevTab,
            Action::NextTab => Action::NextTab,
            Action::PreviousDesktop => Action::PreviousDesktop,
            Action::NextDesktop => Action::NextDesktop,
            Action::PrevTrack => Action::PrevTrack,
            Action::NextTrack => Action::NextTrack,
            Action::VolumeDown => Action::VolumeDown,
            Action::VolumeUp => Action::VolumeUp,
            Action::CycleDpiPresets => Action::CycleDpiPresets,
            Action::ScrollDown => Action::ScrollDown,
            Action::ScrollUp => Action::ScrollUp,
            Action::HorizontalScrollLeft => Action::HorizontalScrollLeft,
            Action::HorizontalScrollRight => Action::HorizontalScrollRight,
            Action::Catalog(number) => Action::Catalog(*number),
            Action::CustomShortcut(combo) => Action::CustomShortcut(combo.clone()),
            Action::TypeText(text) => Action::TypeText(text.clone()),
            Action::RunAppleScript(text) => Action::RunAppleScript(text.clone()),
            Action::RunShellCommand(text) => Action::RunShellCommand(text.clone()),
            Action::Workflow(steps) => Action::Workflow(copied_steps(steps)),
        }
    }
}

impl Action {
    /// The number of an action without a payload.
    fn plain_number(&self) -> (number: Option<u8>)
        ensures
            number == match self@ {
                ActionView::Plain(number) => Some(number),
                _ => None,
            },
    {
        match self {
            Action::Nothing => Some(0),
            Action::MouseBack => Some(1),
            Action::MouseForward => Some(2),
            Action::Undo => Some(3),
            Action::Redo => Some(4),
            Action::BrowserBack => Some(5),
            Action::BrowserForward => Some(6),
            Action::PrevTab => Some(7),
            Action::NextTab => Some(8),
            Action::PreviousDesktop => Some(9),
            Action::NextDesktop => Some(10),
            Action::PrevTrack => Some(11),
            Action::NextTrack => Some(12),
            Action::VolumeDown => Some(13),
            Action::VolumeUp => Some(14),
            Action::CycleDpiPresets => Some(15),
            Action::ScrollDown => Some(16),
            Action::ScrollUp => Some(17),
            Action::HorizontalScrollLeft => Some(18),
            Action::HorizontalScrollRight => Some(19),
            _ => None,
        }
    }

    /// Whether two actions are the same.
    pub fn same(&self, other: &Action) -> (same: bool)
        ensures
            same == (self@ == other@),
    {
        if let (Some(a), Some(b)) = (self.plain_number(), other.plain_number()) {
            return a == b;
        }
        match (self, other) {
            (Action::Catalog(a), Action::Catalog(b)) => *a == *b,
            (Action::CustomShortcut(a), Action::CustomShortcut(b)) => same_text(
                a.as_str(),
                b.as_str(),
            ),
            (Action::TypeText(a), Action::TypeText(b)) => same_text(a.as_str(), b.as_str()),
            (Action::RunAppleScript(a), Action::RunAppleScript(b)) => same_text(
                a.as_str(),
                b.as_str(),
            ),
            (Action::RunShellCommand(a), Action::RunShellCommand(b)) => same_text(
                a.as_str(),
                b.as_str(),
            ),
            (Action::Workflow(a), Action::Workflow(b)) => same_steps(a, b),
            _ => false,
        }
    }
}

/// Values by button, each button at most once.
#[derive(Debug)]
pub struct ButtonMap<V> {
    entries: Vec<(ButtonId, V)>,
}

/// The map that `entries` write down, where a button counts once.
pub open spec fn button_map<V>(entries: Seq<(ButtonId, V)>) -> Map<ButtonId, V>
    decreases entries.len(),
{
    if entries.len() == 0 {
        Map::empty()
    } else {
        button_map(entries.drop_last()).insert(entries.last().0, entries.last().1)
    }
}

/// Whether `entries` list no button twice.
pub open spec fn buttons_differ<V>(entries: Seq<(ButtonId, V)>) -> bool {
    forall|i: int, j: int|
        #![trigger entries[i], entries[j]]
        0 <= i < j < entries.len() ==> entries[i].0 != entries[j].0
}

proof fn listed_button<V>(entries: Seq<(ButtonId, V)>, at: int)
    requires
        0 <= at < entries.len(),
        buttons_differ(entries),
    ensures
        button_map(entries).contains_key(entries[at].0),
        button_map(entries)[entries[at].0] == entries[at].1,
    decreases entries.len(),
{
    if at < entries.len() - 1 {
        listed_button(entries.drop_last(), at);
        assert(entries[at].0 != entries[entries.len() - 1].0);
    }
}

proof fn unlisted_button<V>(entries: Seq<(ButtonId, V)>, button: ButtonId)
    requires
        forall|i: int| 0 <= i < entries.len() ==> (#[trigger] entries[i]).0 != button,
    ensures
        !button_map(entries).contains_key(button),
    decreases entries.len(),
{
    if entries.len() > 0 {
        assert(entries[entries.len() - 1].0 != button);
        let shorter = entries.drop_last();
        assert forall|i: int| 0 <= i < shorter.len() implies (#[trigger] shorter[i]).0
            != button by {
            assert(shorter[i] == entries[i]);
        }
        unlisted_button(entries.drop_last(), button);
    }
}

proof fn counted_buttons<V>(entries: Seq<(ButtonId, V)>)
    requires
        buttons_differ(entries),
    ensures
        button_map(entries).dom().finite(),
        button_map(entries).dom().len() == entries.len(),
    decreases entries.len(),
{
    if entries.len() > 0 {
        let shorter = entries.drop_last();
        counted_buttons(shorter);
        assert forall|i: int| 0 <= i < shorter.len() implies (#[trigger] shorter[i]).0
            != entries.last().0 by {
            assert(entries[i].0 != entries[entries.len() - 1].0);
        }
        unlisted_button(shorter, entries.last().0);
        assert(button_map(entries).dom() =~= button_map(shorter).dom().insert(entries.last().0));
    }
}

impl<V> View for ButtonMap<V> {
    type V = Map<ButtonId, V>;

    closed spec fn view(&self) -> Map<ButtonId, V> {
        button_map(self.entries@)
    }
}

impl<V> ButtonMap<V> {
    #[verifier::type_invariant]
    spec fn well_formed(self) -> bool {
        buttons_differ(self.entries@)
    }

    /// No buttons.
    pub fn new() -> (map: Self)
        ensures
            map@ == Map::<ButtonId, V>::empty(),
    {
        ButtonMap { entries: Vec::new() }
    }

    /// How many buttons there are.
    pub fn len(&self) -> (count: usize)
        ensures
            self@.dom().finite(),
            count == self@.dom().len(),
    {
        proof {
            use_type_invariant(self);
            counted_buttons(self.entries@);
        }
        self.entries.len()
    }

    fn position(&self, button: ButtonId) -> (found: Option<usize>)
        ensures
            match found {
                Some(at) => at < self.entries@.len() && self.entries@[at as int].0 == button
                    && self@.contains_key(button) && self@[button] == self.entries@[at as int].1,
                None => !self@.contains_key(button) && forall|i: int|
                    0 <= i < self.entries@.len() ==> (#[trigger] self.entries@[i]).0 != button,
            },
    {
        proof {
            use_type_invariant(self);
        }
        let mut i: usize = 0;
        while i < self.entries.len()
            invariant
                i <= self.entries@.len(),
                buttons_differ(self.entries@),
                forall|j: int| 0 <= j < i ==> (#[trigger] self.entries@[j]).0 != button,
            decreases self.entries@.len() - i,
        {
            if self.entries[i].0 == button {
                proof {
                    listed_button(self.entries@, i as int);
                }
                return Some(i);
            }
            i += 1;
        }
        proof {
            unlisted_button(self.entries@, button);
        }
        None
    }

    /// Whether there is a value for `button`.
    pub fn contains_key(&self, button: ButtonId) -> (found: bool)
        ensures
            found == self@.contains_key(button),
    {
        self.position(button).is_some()
    }

    /// The value for `button`.
    pub fn get(&self, button: ButtonId) -> (value: Option<&V>)
        ensures
            match value {
                Some(value) => self@.contains_key(button) && self@[button] == *value,
                None => !self@.contains_key(button),
            },
    {
        match self.position(button) {
            Some(at) => Some(&self.entries[at].1),
            None => None,
        }
    }

    /// Puts the value for `button`.
    pub fn insert(&mut self, button: ButtonId, value: V)
        ensures
            final(self)@ == old(self)@.insert(button, value),
    {
        proof {
            use_type_invariant(&*self);
        }
        let found = self.position(button);
        let mut entries: Vec<(ButtonId, V)> = Vec::new();
        std::mem::swap(&mut entries, &mut self.entries);
        let ghost before = entries@;
        if let Some(at) = found {
            entries.remove(at);
            proof {
                let rest = before.remove(at as int);
                assert(entries@ == rest);
                assert forall|i: int, j: int|
                    #![trigger rest[i], rest[j]]
                    0 <= i < j < rest.len() implies rest[i].0 != rest[j].0 by {
                    let a = if i < at {
                        i
                    } else {
                        i + 1
                    };
                    let b = if j < at {
                        j
                    } else {
                        j + 1
                    };
                    assert(before[a].0 != before[b].0);
                }
                assert forall|i: int| 0 <= i < rest.len() implies (#[trigger] rest[i]).0
                    != button by {
                    let a = if i < at {
                        i
                    } else {
                        i + 1
                    };
                    if a < at {
                        assert(before[a].0 != before[at as int].0);
                    } else {
                        assert(before[at as int].0 != before[a].0);
                    }
                }
                removed_button(before, at as int);
            }
        }
        let ghost rest = entries@;
        entries.push((button, value));
        proof {
            assert(entries@.drop_last() =~= rest);
            assert forall|i: int, j: int|
                #![trigger entries@[i], entries@[j]]
                0 <= i < j < entries@.len() implies entries@[i].0 != entries@[j].0 by {
                assert(entries@[i] == rest[i]);
                if j < rest.len() {
                    assert(entries@[j] == rest[j]);
                }
            }
            assert(button_map(entries@) =~= button_map(before).insert(button, value));
        }
        std::mem::swap(&mut entries, &mut self.entries);
    }
}

proof fn removed_button<V>(entries: Seq<(ButtonId, V)>, at: int)
    requires
        0 <= at < entries.len(),
        buttons_differ(entries),
    ensures
        button_map(entries.remove(at)) == button_map(entries).remove(entries[at].0),
    decreases entries.len(),
{
    let shorter = entries.drop_last();
    if at == entries.len() - 1 {
        assert(entries.remove(at) =~= shorter);
        assert forall|i: int| 0 <= i < shorter.len() implies (#[trigger] shorter[i]).0
            != entries[at].0 by {
            assert(entries[i].0 != entries[at].0);
        }
        unlisted_button(shorter, entries[at].0);
        assert(button_map(shorter) =~= button_map(entries).remove(entries[at].0));
    } else {
        removed_button(shorter, at);
        assert(entries.remove(at).drop_last() =~= shorter.remove(at));
        assert(entries.remove(at).last() == entries.last());
        assert(entries[at].0 != entries[entries.len() - 1].0);
        assert(button_map(entries.remove(at)) =~= button_map(entries).remove(entries[at].0));
    }
}

/// What each direction of a gesture does.
#[derive(Debug)]
pub struct GestureMap {
    pub up: Option<Action>,
    pub down: Option<Action>,
    pub left: Option<Action>,
    pub right: Option<Action>,
    pub click: Option<Action>,
}

impl GestureMap {
    /// What `direction` does.
    pub open spec fn bound(self, direction: GestureDirection) -> Option<Action> {
        match direction {
            GestureDirection::Up => self.up,
            GestureDirection::Down => self.down,
            GestureDirection::Left => self.left,
            GestureDirection::Right => self.right,
            GestureDirection::Click => self.click,
        }
    }

    /// What `direction` does.
    pub fn get(&self, direction: GestureDirection) -> (action: &Option<Action>)
        ensures
            *action == self.bound(direction),
    {
        match direction {
            GestureDirection::Up => &self.up,
            GestureDirection::Down => &self.down,
            GestureDirection::Left => &self.left,
            GestureDirection::Right => &self.right,
            GestureDirection::Click => &self.click,
        }
    }
}

} // verus!
