//! The tray presenter: derives the menu item enablement from the run
//! state — never stored, always recomputed, so it cannot drift — and
//! decides when a user-visible notification is due.

use vstd::prelude::*;
use vstd::string::StringExecFns;
use crate::lifecycle::{allowed, ControllerEvent, LifecycleCommand, RunState};

verus! {

/// Enablement of the three lifecycle menu items.  Derived from the run
/// state alone; the pause item stands for pause in `Running` and for
/// resume in `Paused`.
#[derive(Clone, Copy, Debug, PartialEq, Eq, Structural)]
pub struct MenuItemState {
    pub start_enabled: bool,
    pub pause_enabled: bool,
    pub stop_enabled: bool,
}

/// The menu enablement a run state calls for: exactly the transitions
/// the guard table allows from that state.
pub open spec fn spec_menu(s: RunState) -> MenuItemState {
    MenuItemState {
        start_enabled: allowed(s, LifecycleCommand::Start),
        pause_enabled: allowed(s, LifecycleCommand::Pause) || allowed(s, LifecycleCommand::Resume),
        stop_enabled: allowed(s, LifecycleCommand::Stop),
    }
}

/// Recompute the menu enablement from the current run state.
pub fn menu_state(s: RunState) -> (m: MenuItemState)
    ensures
        m == spec_menu(s),
{
    match s {
        RunState::Stopped => MenuItemState {
            start_enabled: true,
            pause_enabled: false,
            stop_enabled: false,
        },
        RunState::Running => MenuItemState {
            start_enabled: false,
            pause_enabled: true,
            stop_enabled: true,
        },
        RunState::Paused => MenuItemState {
            start_enabled: false,
            pause_enabled: true,
            stop_enabled: true,
        },
    }
}

/// The menu derived from any run state enables exactly the commands the
/// guard table allows there: start only in `Stopped`; the pause item in
/// `Running` (pause) and `Paused` (resume); stop in both active states.
pub proof fn lemma_menu_matches_guard_table(s: RunState)
    ensures
        spec_menu(s).start_enabled <==> allowed(s, LifecycleCommand::Start),
        spec_menu(s).pause_enabled <==> (allowed(s, LifecycleCommand::Pause) || allowed(
            s,
            LifecycleCommand::Resume,
        )),
        spec_menu(s).stop_enabled <==> allowed(s, LifecycleCommand::Stop),
        s is Stopped ==> spec_menu(s) == (MenuItemState {
            start_enabled: true,
            pause_enabled: false,
            stop_enabled: false,
        }),
        s is Running ==> spec_menu(s) == (MenuItemState {
            start_enabled: false,
            pause_enabled: true,
            stop_enabled: true,
        }),
        s is Paused ==> spec_menu(s) == (MenuItemState {
            start_enabled: false,
            pause_enabled: true,
            stop_enabled: true,
        }),
{
}

/// A failed start leaves the controller in `Stopped` — `complete`
/// guarantees the state is unchanged on failure — and the menu derived
/// from `Stopped` enables neither pause nor stop, only start.
pub proof fn lemma_failed_start_menu()
    ensures
        !spec_menu(RunState::Stopped).pause_enabled,
        !spec_menu(RunState::Stopped).stop_enabled,
        spec_menu(RunState::Stopped).start_enabled,
{
}

/// A user-visible notification.
#[derive(Clone, Debug)]
pub struct Notification {
    pub title: String,
    pub body: String,
}

/// A notification is due exactly on successful transitions into
/// `Running` by a start and into `Stopped` by a stop: not on pause or
/// resume, and never on a failure, which is surfaced through the window
/// instead.
pub open spec fn spec_should_notify(cmd: LifecycleCommand, ev: ControllerEvent) -> bool {
    ev is StateChanged && (cmd is Start || cmd is Stop)
}

/// What the presenter does in reaction to one controller event.
#[derive(Clone, Debug)]
pub struct PresenterUpdate {
    pub menu: MenuItemState,
    pub notification: Option<Notification>,
}

/// React to a controller event: recompute the menu from the run state
/// the controller holds after the event, and raise a notification
/// exactly when one is due.
pub fn presenter_react(state: RunState, cmd: LifecycleCommand, ev: &ControllerEvent) -> (u:
    PresenterUpdate)
    requires
        *ev matches ControllerEvent::StateChanged(s) ==> s == state,
    ensures
        u.menu == spec_menu(state),
        u.notification is Some <==> spec_should_notify(cmd, *ev),
        u.notification matches Some(n) ==> {
            &&& n.title@ == "Green Dot"@
            &&& cmd is Start ==> n.body@ == "Status keeper started"@
            &&& cmd is Stop ==> n.body@ == "Status keeper stopped"@
        },
{
    let menu = menu_state(state);
    let notification = match ev {
        ControllerEvent::StateChanged(_) => match cmd {
            LifecycleCommand::Start => Some(
                Notification {
                    title: String::from_str("Green Dot"),
                    body: String::from_str("Status keeper started"),
                },
            ),
            LifecycleCommand::Stop => Some(
                Notification {
                    title: String::from_str("Green Dot"),
                    body: String::from_str("Status keeper stopped"),
                },
            ),
            _ => None,
        },
        ControllerEvent::TransitionFailed(_, _) => None,
    };
    PresenterUpdate { menu, notification }
}

/// One entry of the tray menu.
#[derive(Clone, Debug)]
pub struct TrayEntry {
    pub id: String,
    pub label: String,
    pub enabled: bool,
}

/// One item of the tray menu: an entry or a native separator.
#[derive(Clone, Debug)]
pub enum TrayItem {
    Entry(TrayEntry),
    Separator,
}

/// The initial tray menu: the three lifecycle items enabled as the
/// `Stopped` state calls for, then dashboard and settings, then quit,
/// in two separator-divided groups.
pub fn tray_menu_layout() -> (items: Vec<TrayItem>)
    ensures
        items@.len() == 8,
        items@[0] matches TrayItem::Entry(e) ==> (e.id@ == "start"@ && e.label@ == "Start"@
            && e.enabled == spec_menu(RunState::Stopped).start_enabled),
        items@[0] is Entry,
        items@[1] matches TrayItem::Entry(e) ==> (e.id@ == "pause"@ && e.label@ == "Pause"@
            && e.enabled == spec_menu(RunState::Stopped).pause_enabled),
        items@[1] is Entry,
        items@[2] matches TrayItem::Entry(e) ==> (e.id@ == "stop"@ && e.label@ == "Stop"@
            && e.enabled == spec_menu(RunState::Stopped).stop_enabled),
        items@[2] is Entry,
        items@[3] is Separator,
        items@[4] matches TrayItem::Entry(e) ==> (e.id@ == "dashboard"@ && e.label@
            == "Dashboard"@ && e.enabled),
        items@[4] is Entry,
        items@[5] matches TrayItem::Entry(e) ==> (e.id@ == "settings"@ && e.label@ == "Settings"@
            && e.enabled),
        items@[5] is Entry,
        items@[6] is Separator,
        items@[7] matches TrayItem::Entry(e) ==> (e.id@ == "quit"@ && e.label@ == "Quit"@
            && e.enabled),
        items@[7] is Entry,
{
    let mut items: Vec<TrayItem> = Vec::new();
    items.push(
        TrayItem::Entry(
            TrayEntry {
                id: String::from_str("start"),
                label: String::from_str("Start"),
                enabled: true,
            },
        ),
    );
    items.push(
        TrayItem::Entry(
            TrayEntry {
                id: String::from_str("pause"),
                label: String::from_str("Pause"),
                enabled: false,
            },
        ),
    );
    items.push(
        TrayItem::Entry(
            TrayEntry {
                id: String::from_str("stop"),
                label: String::from_str("Stop"),
                enabled: false,
            },
        ),
    );
    items.push(TrayItem::Separator);
    items.push(
        TrayItem::Entry(
            TrayEntry {
                id: String::from_str("dashboard"),
                label: String::from_str("Dashboard"),
                enabled: true,
            },
        ),
    );
    items.push(
        TrayItem::Entry(
            TrayEntry {
                id: String::from_str("settings"),
                label: String::from_str("Settings"),
                enabled: true,
            },
        ),
    );
    items.push(TrayItem::Separator);
    items.push(
        TrayItem::Entry(
            TrayEntry {
                id: String::from_str("quit"),
                label: String::from_str("Quit"),
                enabled: true,
            },
        ),
    );
    items
}

} // verus!
