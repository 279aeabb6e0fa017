//! Buttons, click actions, and the steps that make up one click.

use vstd::prelude::*;

pub mod linux;

verus! {

/// A pointer button.
#[derive(Debug, Clone, Copy, PartialEq, Eq, Structural)]
pub enum MouseButton {
    Left,
    Right,
    Middle,
}

/// How often the button is activated per click.
#[derive(Debug, Clone, Copy, PartialEq, Eq, Structural)]
pub enum ClickAction {
    Single,
    Double,
}

/// Why input cannot be injected.
#[derive(Debug, Clone, Copy, PartialEq, Eq, Structural)]
pub enum InjectError {
    /// The backend could not be constructed: a resource or device failure.
    BackendUnavailable,
    /// The platform did not grant the permission to inject input in time.
    PermissionDenied,
    /// One click attempt failed.
    InjectionFailed,
}

/// Milliseconds between the two halves of a double click. It lies inside the
/// window in which a platform takes two clicks for a double click.
pub const DOUBLE_CLICK_GAP_MS: u64 = 50;

/// The shortest gap that still separates the two halves.
pub const DOUBLE_CLICK_GAP_MIN_MS: u64 = 30;

/// The longest gap that a platform still takes for a double click.
pub const DOUBLE_CLICK_GAP_MAX_MS: u64 = 60;

/// One step of a click, as the host program performs it.
#[derive(Debug, Clone, Copy, PartialEq, Eq, Structural)]
pub enum InputStep {
    /// Press and release the button at the pointer's current position.
    Click(MouseButton),
    /// Do nothing for this many milliseconds.
    Pause(u64),
}

/// A platform's way to press and release a button once. The host program
/// implements it; nothing is assumed of an implementation.
pub trait InputBackend: Send {
    fn click(&mut self, button: MouseButton) -> Result<(), InjectError>;
}

impl MouseButton {
    /// The button's name.
    pub open spec fn label(self) -> Seq<char> {
        match self {
            MouseButton::Left => "Left"@,
            MouseButton::Right => "Right"@,
            MouseButton::Middle => "Middle"@,
        }
    }

    /// The button's name as a `String`.
    pub fn to_string(&self) -> (s: String)
        ensures
            s@ == self.label(),
    {
        match self {
            MouseButton::Left => "Left".to_owned(),
            MouseButton::Right => "Right".to_owned(),
            MouseButton::Middle => "Middle".to_owned(),
        }
    }

    /// Every button, in the order in which a menu offers them.
    pub fn all() -> (buttons: [MouseButton; 3])
        ensures
            buttons@ == seq![MouseButton::Left, MouseButton::Right, MouseButton::Middle],
    {
        let buttons = [MouseButton::Left, MouseButton::Right, MouseButton::Middle];
        assert(buttons@ =~= seq![MouseButton::Left, MouseButton::Right, MouseButton::Middle]);
        buttons
    }
}

impl ClickAction {
    /// The action's name.
    pub open spec fn label(self) -> Seq<char> {
        match self {
            ClickAction::Single => "Single"@,
            ClickAction::Double => "Double"@,
        }
    }

    /// The action's name as a `String`.
    pub fn to_string(&self) -> (s: String)
        ensures
            s@ == self.label(),
    {
        match self {
            ClickAction::Single => "Single".to_owned(),
            ClickAction::Double => "Double".to_owned(),
        }
    }

    /// Every action, in the order in which a menu offers them.
    pub fn all() -> (actions: [ClickAction; 2])
        ensures
            actions@ == seq![ClickAction::Single, ClickAction::Double],
    {
        let actions = [ClickAction::Single, ClickAction::Double];
        assert(actions@ =~= seq![ClickAction::Single, ClickAction::Double]);
        actions
    }
}

impl InjectError {
    /// The error's text.
    pub open spec fn label(self) -> Seq<char> {
        match self {
            InjectError::BackendUnavailable => "input backend unavailable"@,
            InjectError::PermissionDenied => "input permission denied"@,
            InjectError::InjectionFailed => "click injection failed"@,
        }
    }

    /// The error's text as a `String`.
    pub fn to_string(&self) -> (s: String)
        ensures
            s@ == self.label(),
    {
        match self {
            InjectError::BackendUnavailable => "input backend unavailable".to_owned(),
            InjectError::PermissionDenied => "input permission denied".to_owned(),
            InjectError::InjectionFailed => "click injection failed".to_owned(),
        }
    }
}

/// The steps of one click: a single click is one press and release; a double
/// click is two of them with the gap between.
pub open spec fn click_steps(button: MouseButton, action: ClickAction) -> Seq<InputStep> {
    match action {
        ClickAction::Single => seq![InputStep::Click(button)],
        ClickAction::Double => seq![
            InputStep::Click(button),
            InputStep::Pause(DOUBLE_CLICK_GAP_MS),
            InputStep::Click(button),
        ],
    }
}

/// The steps of one click, in the order in which they are performed. The
/// host program performs them one by one and gives up at the first that
/// fails.
pub fn click_plan(button: MouseButton, action: ClickAction) -> (steps: Vec<InputStep>)
    ensures
        steps@ == click_steps(button, action),
{
    let mut steps: Vec<InputStep> = Vec::new();
    steps.push(InputStep::Click(button));
    match action {
        ClickAction::Single => {},
        ClickAction::Double => {
            steps.push(InputStep::Pause(DOUBLE_CLICK_GAP_MS));
            steps.push(InputStep::Click(button));
        },
    }
    assert(steps@ =~= click_steps(button, action));
    steps
}

/// A double click is two single clicks of the same button with one pause
/// between them, and the pause lies inside the double-click window.
pub proof fn lemma_double_is_two_singles(button: MouseButton)
    ensures
        click_steps(button, ClickAction::Double) == click_steps(button, ClickAction::Single)
            + seq![InputStep::Pause(DOUBLE_CLICK_GAP_MS)] + click_steps(
            button,
            ClickAction::Single,
        ),
        DOUBLE_CLICK_GAP_MIN_MS <= DOUBLE_CLICK_GAP_MS <= DOUBLE_CLICK_GAP_MAX_MS,
{
    assert(click_steps(button, ClickAction::Double) =~= click_steps(button, ClickAction::Single)
        + seq![InputStep::Pause(DOUBLE_CLICK_GAP_MS)] + click_steps(
        button,
        ClickAction::Single,
    ));
}

} // verus!
