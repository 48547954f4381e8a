//! The editors for actions with a payload, shown beside the keyboard.

use crate::binding::{
    copied_steps, step_views, Action, ActionView, WorkflowStep, WorkflowStepView,
};
use crate::text::{decimal, push_decimal, push_text};
use vstd::prelude::*;

verus! {

/// Which editor is open.
#[derive(Debug, Clone, Copy, PartialEq, Eq, Structural)]
pub enum PowerUserKind {
    TypeText,
    RunAppleScript,
    RunShellCommand,
    Workflow,
}

impl PowerUserKind {
    /// The message that heads an editor.
    pub open spec fn heading(self) -> Seq<char> {
        match self {
            PowerUserKind::TypeText => "actions.type_text_heading"@,
            PowerUserKind::RunAppleScript => "actions.run_applescript_heading"@,
            PowerUserKind::RunShellCommand => "actions.run_shell_command_heading"@,
            PowerUserKind::Workflow => "actions.workflow_heading"@,
        }
    }

    /// The message that heads an editor.
    pub fn heading_key(self) -> (key: &'static str)
        ensures
            key@ == self.heading(),
    {
        match self {
            PowerUserKind::TypeText => "actions.type_text_heading",
            PowerUserKind::RunAppleScript => "actions.run_applescript_heading",
            PowerUserKind::RunShellCommand => "actions.run_shell_command_heading",
            PowerUserKind::Workflow => "actions.workflow_heading",
        }
    }
}

/// What stands in an empty text editor.
#[derive(Debug, Clone, Copy)]
pub enum Placeholder {
    /// A message to translate.
    Message(&'static str),
    /// Text that is the same in every language.
    Literal(&'static str),
}

/// What stands in an empty text editor.
pub fn text_editor_placeholder(kind: PowerUserKind) -> (placeholder: Placeholder)
    ensures
        match kind {
            PowerUserKind::TypeText => placeholder matches Placeholder::Message(key) && key@
                == "actions.type_text_placeholder"@,
            PowerUserKind::RunAppleScript => placeholder matches Placeholder::Literal(text)
                && text@ == "display dialog \"Hello\""@,
            PowerUserKind::RunShellCommand => placeholder matches Placeholder::Literal(text)
                && text@ == "echo hello"@,
            PowerUserKind::Workflow => placeholder matches Placeholder::Literal(text) && text@
                == ""@,
        },
{
    match kind {
        PowerUserKind::TypeText => Placeholder::Message("actions.type_text_placeholder"),
        PowerUserKind::RunAppleScript => Placeholder::Literal("display dialog \"Hello\""),
        PowerUserKind::RunShellCommand => Placeholder::Literal("echo hello"),
        PowerUserKind::Workflow => Placeholder::Literal(""),
    }
}

/// The text that an editor of this kind starts from: that of an action of its
/// own kind, and none of any other.
pub open spec fn text_seed(action: Option<ActionView>, kind: PowerUserKind) -> Seq<char> {
    match (action, kind) {
        (Some(ActionView::TypeText(text)), PowerUserKind::TypeText) => text,
        (Some(ActionView::RunAppleScript(text)), PowerUserKind::RunAppleScript) => text,
        (Some(ActionView::RunShellCommand(text)), PowerUserKind::RunShellCommand) => text,
        _ => ""@,
    }
}

/// What an optional action holds.
pub open spec fn action_view(action: Option<&Action>) -> Option<ActionView> {
    match action {
        Some(action) => Some(action@),
        None => None,
    }
}

/// The text that an editor of this kind starts from.
pub fn text_editor_seed(action: Option<&Action>, kind: PowerUserKind) -> (text: String)
    ensures
        text@ == text_seed(action_view(action), kind),
{
    match (action, kind) {
        (Some(Action::TypeText(text)), PowerUserKind::TypeText) => text.clone(),
        (Some(Action::RunAppleScript(text)), PowerUserKind::RunAppleScript) => text.clone(),
        (Some(Action::RunShellCommand(text)), PowerUserKind::RunShellCommand) => text.clone(),
        _ => "".to_owned(),
    }
}

/// The steps that the workflow editor starts from.
pub fn workflow_editor_seed(action: Option<&Action>) -> (steps: Vec<WorkflowStep>)
    ensures
        step_views(steps@) == match action_view(action) {
            Some(ActionView::Workflow(steps)) => steps,
            _ => seq![],
        },
{
    match action {
        Some(Action::Workflow(steps)) => copied_steps(steps),
        _ => {
            let steps: Vec<WorkflowStep> = Vec::new();
            assert(step_views(steps@) =~= seq![]);
            steps
        },
    }
}

/// The action that saving a text editor binds. A workflow is not saved by it.
pub fn saved_text(kind: PowerUserKind, text: String) -> (action: Option<Action>)
    ensures
        action_view(
            match action {
                Some(action) => Some(&action),
                None => None,
            },
        ) == match kind {
            PowerUserKind::TypeText => Some(ActionView::TypeText(text@)),
            PowerUserKind::RunAppleScript => Some(ActionView::RunAppleScript(text@)),
            PowerUserKind::RunShellCommand => Some(ActionView::RunShellCommand(text@)),
            PowerUserKind::Workflow => None,
        },
{
    match kind {
        PowerUserKind::TypeText => Some(Action::TypeText(text)),
        PowerUserKind::RunAppleScript => Some(Action::RunAppleScript(text)),
        PowerUserKind::RunShellCommand => Some(Action::RunShellCommand(text)),
        PowerUserKind::Workflow => None,
    }
}

/// The action that saving the workflow editor binds.
pub fn saved_workflow(steps: &Vec<WorkflowStep>) -> (action: Action)
    ensures
        action@ == ActionView::Workflow(step_views(steps@)),
{
    Action::Workflow(copied_steps(steps))
}

/// What the panel shows while an editor is open.
#[derive(Debug, Clone, Copy, PartialEq, Eq, Structural)]
pub enum EditorCard {
    Text(PowerUserKind),
    Workflow,
    /// There is no text field to edit in.
    Unavailable,
}

/// What the panel shows while the editor of `kind` is open.
pub fn editor_card(kind: PowerUserKind, has_text: bool) -> (card: EditorCard)
    ensures
        card == match kind {
            PowerUserKind::Workflow => EditorCard::Workflow,
            _ => if has_text {
                EditorCard::Text(kind)
            } else {
                EditorCard::Unavailable
            },
        },
{
    match kind {
        PowerUserKind::Workflow => EditorCard::Workflow,
        _ => if has_text {
            EditorCard::Text(kind)
        } else {
            EditorCard::Unavailable
        },
    }
}

/// The name of a step's kind.
pub open spec fn step_name(step: WorkflowStepView) -> Seq<char> {
    match step {
        WorkflowStepView::TypeText(_) => "Type Text"@,
        WorkflowStepView::PressKey(_) => "Press Key"@,
        WorkflowStepView::Delay { .. } => "Delay"@,
        WorkflowStepView::RunAppleScript(_) => "AppleScript"@,
        WorkflowStepView::RunShellCommand(_) => "Shell"@,
    }
}

/// The icon of a step's kind.
pub open spec fn step_picture(step: WorkflowStepView) -> Seq<char> {
    match step {
        WorkflowStepView::TypeText(_) => "action-icons/keyboard.svg"@,
        WorkflowStepView::PressKey(_) => "action-icons/keyboard.svg"@,
        WorkflowStepView::Delay { .. } => "action-icons/chevrons-right.svg"@,
        WorkflowStepView::RunAppleScript(_) => "action-icons/terminal.svg"@,
        WorkflowStepView::RunShellCommand(_) => "action-icons/terminal.svg"@,
    }
}

/// The name and the icon of a step's kind.
pub fn step_kind(step: &WorkflowStep) -> (kind: (&'static str, &'static str))
    ensures
        kind.0@ == step_name(step@),
        kind.1@ == step_picture(step@),
{
    match step {
        WorkflowStep::TypeText(_) => ("Type Text", "action-icons/keyboard.svg"),
        WorkflowStep::PressKey(_) => ("Press Key", "action-icons/keyboard.svg"),
        WorkflowStep::Delay { .. } => ("Delay", "action-icons/chevrons-right.svg"),
        WorkflowStep::RunAppleScript(_) => ("AppleScript", "action-icons/terminal.svg"),
        WorkflowStep::RunShellCommand(_) => ("Shell", "action-icons/terminal.svg"),
    }
}

/// What a row of the workflow editor shows of a step's payload.
pub open spec fn preview(step: WorkflowStepView) -> Seq<char> {
    match step {
        WorkflowStepView::TypeText(text) => if text.len() == 0 {
            "\u{2026}"@
        } else {
            "\u{201c}"@ + text + "\u{201d}"@
        },
        WorkflowStepView::PressKey(combo) => combo,
        WorkflowStepView::Delay { millis } => decimal(millis as nat) + " ms"@,
        WorkflowStepView::RunAppleScript(text) => shown_or_dots(text),
        WorkflowStepView::RunShellCommand(text) => shown_or_dots(text),
    }
}

/// A text, or dots in place of an empty one.
pub open spec fn shown_or_dots(text: Seq<char>) -> Seq<char> {
    if text.len() == 0 {
        "\u{2026}"@
    } else {
        text
    }
}

fn or_dots(text: &String) -> (shown: String)
    ensures
        shown@ == shown_or_dots(text@),
{
    if text.as_str().unicode_len() == 0 {
        "\u{2026}".to_owned()
    } else {
        text.clone()
    }
}

/// What a row of the workflow editor shows of a step's payload.
pub fn step_preview(step: &WorkflowStep) -> (shown: String)
    ensures
        shown@ == preview(step@),
{
    match step {
        WorkflowStep::TypeText(text) => if text.as_str().unicode_len() == 0 {
            "\u{2026}".to_owned()
        } else {
            let mut shown = "\u{201c}".to_owned();
            push_text(&mut shown, text.as_str());
            push_text(&mut shown, "\u{201d}");
            shown
        },
        WorkflowStep::PressKey(combo) => combo.clone(),
        WorkflowStep::Delay { millis } => {
            let mut shown = "".to_owned();
            push_decimal(&mut shown, *millis);
            push_text(&mut shown, " ms");
            proof {
                reveal_strlit("");
                assert(""@ + decimal(*millis as nat) =~= decimal(*millis as nat));
            }
            shown
        },
        WorkflowStep::RunAppleScript(text) => or_dots(text),
        WorkflowStep::RunShellCommand(text) => or_dots(text),
    }
}

/// Whether the editor of `kind` is the one for this action.
pub open spec fn edits(action: Option<ActionView>, kind: PowerUserKind) -> bool {
    match (action, kind) {
        (Some(ActionView::TypeText(_)), PowerUserKind::TypeText) => true,
        (Some(ActionView::RunAppleScript(_)), PowerUserKind::RunAppleScript) => true,
        (Some(ActionView::RunShellCommand(_)), PowerUserKind::RunShellCommand) => true,
        (Some(ActionView::Workflow(_)), PowerUserKind::Workflow) => true,
        _ => false,
    }
}

/// Whether the list marks the editor of `kind` as the one in use.
pub fn power_user_selected(current: Option<&Action>, kind: PowerUserKind) -> (selected: bool)
    ensures
        selected == edits(action_view(current), kind),
{
    match (current, kind) {
        (Some(Action::TypeText(_)), PowerUserKind::TypeText) => true,
        (Some(Action::RunAppleScript(_)), PowerUserKind::RunAppleScript) => true,
        (Some(Action::RunShellCommand(_)), PowerUserKind::RunShellCommand) => true,
        (Some(Action::Workflow(_)), PowerUserKind::Workflow) => true,
        _ => false,
    }
}

/// The editor of an action starts from what was saved with it.
pub proof fn a_saved_text_is_edited_again(action: ActionView, kind: PowerUserKind, text: Seq<char>)
    requires
        action == match kind {
            PowerUserKind::TypeText => ActionView::TypeText(text),
            PowerUserKind::RunAppleScript => ActionView::RunAppleScript(text),
            _ => ActionView::RunShellCommand(text),
        },
        kind != PowerUserKind::Workflow,
    ensures
        text_seed(Some(action), kind) == text,
        edits(Some(action), kind),
{
}

} // verus!
