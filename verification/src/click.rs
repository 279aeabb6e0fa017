//! The click capability as a backend offers it whole: one call for a button
//! and a click type.

use crate::input::{click_plan, click_steps, ClickAction, InjectError, InputStep};
use vstd::prelude::*;

pub use crate::input::MouseButton;

verus! {

/// How often the button is activated per click.
#[derive(Debug, Clone, Copy, PartialEq, Eq, Structural)]
pub enum ClickType {
    Single,
    Double,
}

/// A platform's way to perform a whole click. The host program implements
/// it; nothing is assumed of an implementation.
pub trait ClickerBackend: Send {
    fn click(&mut self, button: MouseButton, click_type: ClickType) -> Result<(), InjectError>;
}

impl ClickType {
    /// The click type's name.
    pub open spec fn label(self) -> Seq<char> {
        match self {
            ClickType::Single => "Single"@,
            ClickType::Double => "Double"@,
        }
    }

    /// The click type's name as a `String`.
    pub fn to_string(&self) -> (s: String)
        ensures
            s@ == self.label(),
    {
        match self {
            ClickType::Single => "Single".to_owned(),
            ClickType::Double => "Double".to_owned(),
        }
    }

    /// The click action of the same name.
    pub open spec fn spec_action(self) -> ClickAction {
        match self {
            ClickType::Single => ClickAction::Single,
            ClickType::Double => ClickAction::Double,
        }
    }

    /// The click action of the same name.
    pub fn action(&self) -> (action: ClickAction)
        ensures
            action == self.spec_action(),
            action.label() == self.label(),
    {
        match self {
            ClickType::Single => ClickAction::Single,
            ClickType::Double => ClickAction::Double,
        }
    }

    /// The steps by which a backend performs a click of this type.
    pub fn steps(&self, button: MouseButton) -> (steps: Vec<InputStep>)
        ensures
            steps@ == click_steps(button, self.spec_action()),
    {
        click_plan(button, self.action())
    }
}

} // verus!
