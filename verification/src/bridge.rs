//! The window-event bridge: maps tray clicks to directives for the
//! window surface, and window-side event payloads to lifecycle commands.
//! A left click on the tray icon is a window-visibility intent,
//! orthogonal to the run state and never gated by it.

use vstd::prelude::*;
use vstd::string::StrSliceExecFns;
use crate::lifecycle::{LifecycleCommand, RunState};

verus! {

/// Character-wise string equality.
pub fn str_eq(a: &str, b: &str) -> (r: bool)
    ensures
        r == (a@ == b@),
{
    let la = a.unicode_len();
    let lb = b.unicode_len();
    if la != lb {
        return false;
    }
    let mut i: usize = 0;
    while i < la
        invariant
            i <= la,
            la == a@.len(),
            la == lb,
            lb == b@.len(),
            forall|j: int| 0 <= j < i ==> a@[j] == b@[j],
        decreases la - i,
    {
        if a.get_char(i) != b.get_char(i) {
            return false;
        }
        i = i + 1;
    }
    proof {
        assert(a@ =~= b@);
    }
    true
}

/// What a tray interaction asks the window surface to do.
#[derive(Clone, Debug, PartialEq, Eq)]
pub enum TrayDirective {
    /// Forward a lifecycle payload to the window as a tray event.
    ForwardLifecycle(String),
    /// Show the main window and give it focus.
    ShowWindow,
    /// Show and focus the window, then navigate it to the settings view.
    ShowSettings,
    /// Quit the application.
    Quit,
    /// An unknown menu identifier: do nothing.
    Ignore,
}

/// The directive for a left click on the tray icon: show and focus the
/// window, regardless of the run state.
pub fn left_click_directive() -> (d: TrayDirective)
    ensures
        d == TrayDirective::ShowWindow,
{
    TrayDirective::ShowWindow
}

/// The directive for a click on a tray menu item, by its identifier:
/// the three lifecycle items forward their payload to the window,
/// dashboard shows it, settings shows it and navigates, quit quits, and
/// anything else is ignored.
pub fn directive_for_menu_click(id: &str) -> (d: TrayDirective)
    ensures
        id@ == "start"@ ==> (d matches TrayDirective::ForwardLifecycle(p) && p@ == "start"@),
        id@ == "pause"@ ==> (d matches TrayDirective::ForwardLifecycle(p) && p@ == "pause"@),
        id@ == "stop"@ ==> (d matches TrayDirective::ForwardLifecycle(p) && p@ == "stop"@),
        id@ == "dashboard"@ ==> d == TrayDirective::ShowWindow,
        id@ == "settings"@ ==> d == TrayDirective::ShowSettings,
        id@ == "quit"@ ==> d == TrayDirective::Quit,
        id@ != "start"@ && id@ != "pause"@ && id@ != "stop"@ && id@ != "dashboard"@ && id@
            != "settings"@ && id@ != "quit"@ ==> d == TrayDirective::Ignore,
{
    proof {
        reveal_strlit("start");
        reveal_strlit("pause");
        reveal_strlit("stop");
        reveal_strlit("dashboard");
        reveal_strlit("settings");
        reveal_strlit("quit");
        assert("start"@.len() == 5 && "pause"@.len() == 5 && "stop"@.len() == 4);
        assert("dashboard"@.len() == 9 && "settings"@.len() == 8 && "quit"@.len() == 4);
        assert("start"@[0] == 's' && "pause"@[0] == 'p' && "stop"@[0] == 's' && "quit"@[0] == 'q');
    }
    if str_eq(id, "start") {
        TrayDirective::ForwardLifecycle(String::from_str("start"))
    } else if str_eq(id, "pause") {
        TrayDirective::ForwardLifecycle(String::from_str("pause"))
    } else if str_eq(id, "stop") {
        TrayDirective::ForwardLifecycle(String::from_str("stop"))
    } else if str_eq(id, "dashboard") {
        TrayDirective::ShowWindow
    } else if str_eq(id, "settings") {
        TrayDirective::ShowSettings
    } else if str_eq(id, "quit") {
        TrayDirective::Quit
    } else {
        TrayDirective::Ignore
    }
}

/// The lifecycle command a window-side tray-event payload stands for.
/// The pause payload is a toggle: it means resume when the controller
/// is paused and pause otherwise; the guard table then rejects it in
/// `Stopped` either way.
pub fn command_for_payload(payload: &str, state: RunState) -> (c: Option<LifecycleCommand>)
    ensures
        payload@ == "start"@ ==> c == Some(LifecycleCommand::Start),
        payload@ == "stop"@ ==> c == Some(LifecycleCommand::Stop),
        payload@ == "pause"@ && state is Paused ==> c == Some(LifecycleCommand::Resume),
        payload@ == "pause"@ && !(state is Paused) ==> c == Some(LifecycleCommand::Pause),
        payload@ != "start"@ && payload@ != "pause"@ && payload@ != "stop"@ ==> c is None,
    {
    proof {
        reveal_strlit("start");
        reveal_strlit("pause");
        reveal_strlit("stop");
        assert("start"@.len() == 5 && "pause"@.len() == 5 && "stop"@.len() == 4);
        assert("start"@[0] == 's' && "pause"@[0] == 'p');
    }
    if str_eq(payload, "start") {
        Some(LifecycleCommand::Start)
    } else if str_eq(payload, "pause") {
        if let RunState::Paused = state {
            Some(LifecycleCommand::Resume)
        } else {
            Some(LifecycleCommand::Pause)
        }
    } else if str_eq(payload, "stop") {
        Some(LifecycleCommand::Stop)
    } else {
        None
    }
}

/// The window event name lifecycle payloads are emitted under.
pub fn tray_event_name() -> (s: &'static str)
    ensures
        s@ == "tray-event"@,
{
    "tray-event"
}

/// The window event name navigation targets are emitted under.
pub fn navigate_event_name() -> (s: &'static str)
    ensures
        s@ == "navigate"@,
{
    "navigate"
}

/// The navigation target the settings menu item leads to.
pub fn settings_target() -> (s: &'static str)
    ensures
        s@ == "settings"@,
{
    "settings"
}

} // verus!
