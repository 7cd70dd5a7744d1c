//! User preferences: what closing the main window does.
use vstd::prelude::*;

use crate::text::same_text;

verus! {

/// What happens when the user closes the main window.
#[derive(Clone, Copy, Debug, PartialEq, Eq, Structural)]
pub enum CloseAction {
    /// Ask every time (default).
    Ask,
    /// Minimize to tray.
    Tray,
    /// Exit the application.
    Exit,
}

impl Default for CloseAction {
    fn default() -> (r: CloseAction)
        ensures
            r == CloseAction::Ask,
    {
        CloseAction::Ask
    }
}

/// The name under which a close action is stored: `ask`, `tray` or `exit`.
pub open spec fn close_action_name(a: CloseAction) -> Seq<char> {
    match a {
        CloseAction::Ask => "ask"@,
        CloseAction::Tray => "tray"@,
        CloseAction::Exit => "exit"@,
    }
}

/// The close action stored under a name, if the name is one of the three.
pub open spec fn close_action_named(name: Seq<char>) -> Option<CloseAction> {
    if name == "ask"@ {
        Some(CloseAction::Ask)
    } else if name == "tray"@ {
        Some(CloseAction::Tray)
    } else if name == "exit"@ {
        Some(CloseAction::Exit)
    } else {
        None
    }
}

/// The close action that a choice made on the close page selects: `exit`
/// and `tray` select themselves; anything else means asking again.
pub open spec fn close_action_chosen(choice: Seq<char>) -> CloseAction {
    if choice == "exit"@ {
        CloseAction::Exit
    } else if choice == "tray"@ {
        CloseAction::Tray
    } else {
        CloseAction::Ask
    }
}

impl CloseAction {
    /// The stored name of this action.
    pub fn name(&self) -> (r: &'static str)
        ensures
            r@ == close_action_name(*self),
    {
        match self {
            CloseAction::Ask => "ask",
            CloseAction::Tray => "tray",
            CloseAction::Exit => "exit",
        }
    }

    /// The action stored under `name`, if any.
    pub fn from_name(name: &str) -> (r: Option<CloseAction>)
        ensures
            r == close_action_named(name@),
    {
        if same_text(name, "ask") {
            Some(CloseAction::Ask)
        } else if same_text(name, "tray") {
            Some(CloseAction::Tray)
        } else if same_text(name, "exit") {
            Some(CloseAction::Exit)
        } else {
            None
        }
    }

    /// The action that the close page's choice `choice` selects.
    pub fn from_choice(choice: &str) -> (r: CloseAction)
        ensures
            r == close_action_chosen(choice@),
    {
        if same_text(choice, "exit") {
            CloseAction::Exit
        } else if same_text(choice, "tray") {
            CloseAction::Tray
        } else {
            CloseAction::Ask
        }
    }
}

/// Reading back the stored name of a close action gives the action.
pub proof fn law_close_action_name_round_trip(a: CloseAction)
    ensures
        close_action_named(close_action_name(a)) == Some(a),
        close_action_chosen(close_action_name(a)) == a,
{
    reveal_strlit("ask");
    reveal_strlit("tray");
    reveal_strlit("exit");
    assert("ask"@[0] != "tray"@[0]);
    assert("ask"@[0] != "exit"@[0]);
    assert("tray"@[0] != "exit"@[0]);
}

/// Persisted user preferences.
pub struct Prefs {
    pub close_action: CloseAction,
}

impl Default for Prefs {
    fn default() -> (r: Prefs)
        ensures
            r.close_action == CloseAction::Ask,
    {
        Prefs { close_action: CloseAction::Ask }
    }
}

} // verus!
