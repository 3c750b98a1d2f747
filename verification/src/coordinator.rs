//! The decision functions: one per external stimulus.
//!
//! Each handler takes the state the host just observed (does a window exist,
//! what did its visibility query answer) together with the event, and returns
//! the exact sequence of commands owed.  The `*_plan` spec functions state
//! that sequence case by case; every handler's contract is equality with its
//! plan, so a caller knows the full behaviour, not an approximation of it.

use vstd::prelude::*;

use crate::actions::Action;
use crate::actions::WindowId;
use crate::actions::count_of;
use crate::events::MouseButton;
use crate::events::MouseButtonState;
use crate::events::TrayEvent;
use crate::events::Visibility;
use crate::events::WindowEventKind;
use crate::text::str_eq;

verus! {

/// The commands owed by a capture-window toggle, given what the lookup and
/// the visibility query answered.
///
/// `None` means the window named "capture" does not exist: nothing is done.
/// A visible window is hidden.  A hidden window — and, deliberately, one
/// whose visibility could not be read — is shown and then focused.
pub open spec fn toggle_capture_plan(capture: Option<Visibility>) -> Seq<Action> {
    match capture {
        Option::None => Seq::empty(),
        Option::Some(Visibility::Visible) => seq![Action::Hide(WindowId::Capture)],
        Option::Some(_) => seq![
            Action::Show(WindowId::Capture),
            Action::Focus(WindowId::Capture),
        ],
    }
}

/// Toggle the capture window between hidden and visible.
///
/// `capture` is the host's answer to "look up the window named \"capture\"
/// and query its visibility": `None` when the window does not exist,
/// otherwise the query's answer.
pub fn toggle_capture_window(capture: Option<Visibility>) -> (plan: Vec<Action>)
    ensures
        plan@ == toggle_capture_plan(capture),
{
    let mut plan: Vec<Action> = Vec::new();
    match capture {
        Option::None => {},
        Option::Some(Visibility::Visible) => {
            plan.push(Action::Hide(WindowId::Capture));
        },
        Option::Some(_) => {
            plan.push(Action::Show(WindowId::Capture));
            plan.push(Action::Focus(WindowId::Capture));
        },
    }
    proof {
        assert(plan@ =~= toggle_capture_plan(capture));
    }
    plan
}

/// Law: the toggle is exclusive and exact.  On a visible capture window it
/// issues exactly one hide and neither show nor focus; on a hidden window —
/// or one whose visibility query failed — it issues exactly one show followed
/// by exactly one focus, and no hide.  On a missing window it issues nothing.
pub proof fn lemma_toggle_is_exact(capture: Option<Visibility>)
    ensures
        capture == Option::Some(Visibility::Visible) ==> {
            &&& count_of(toggle_capture_plan(capture), Action::Hide(WindowId::Capture)) == 1
            &&& count_of(toggle_capture_plan(capture), Action::Show(WindowId::Capture)) == 0
            &&& count_of(toggle_capture_plan(capture), Action::Focus(WindowId::Capture)) == 0
        },
        capture == Option::Some(Visibility::Hidden) || capture == Option::Some(
            Visibility::Unknown,
        ) ==> {
            &&& count_of(toggle_capture_plan(capture), Action::Show(WindowId::Capture)) == 1
            &&& count_of(toggle_capture_plan(capture), Action::Focus(WindowId::Capture)) == 1
            &&& count_of(toggle_capture_plan(capture), Action::Hide(WindowId::Capture)) == 0
            &&& toggle_capture_plan(capture)[0] == Action::Show(WindowId::Capture)
            &&& toggle_capture_plan(capture)[1] == Action::Focus(WindowId::Capture)
        },
        capture == Option::None::<Visibility> ==> toggle_capture_plan(capture).len() == 0,
{
    reveal_with_fuel(count_of, 4);
}

/// The commands owed by a tray-menu selection.
///
/// Only the three fixed ids do anything: "open" shows and focuses the main
/// window when it exists, "capture" is the toggle above, "quit" terminates
/// the process with exit code 0.  Every other id is ignored.
pub open spec fn menu_plan(
    id: Seq<char>,
    main_present: bool,
    capture: Option<Visibility>,
) -> Seq<Action> {
    if id == "open"@ {
        if main_present {
            seq![Action::Show(WindowId::Main), Action::Focus(WindowId::Main)]
        } else {
            Seq::empty()
        }
    } else if id == "capture"@ {
        toggle_capture_plan(capture)
    } else if id == "quit"@ {
        seq![Action::Exit(0)]
    } else {
        Seq::empty()
    }
}

/// Dispatch a tray-menu event by its id.
///
/// `main_present` is the host's answer to "does a window named \"main\"
/// exist"; `capture` is the capture window's lookup-and-query answer as in
/// [`toggle_capture_window`].
pub fn handle_menu_event(
    id: &str,
    main_present: bool,
    capture: Option<Visibility>,
) -> (plan: Vec<Action>)
    ensures
        plan@ == menu_plan(id@, main_present, capture),
{
    if str_eq(id, "open") {
        let mut plan: Vec<Action> = Vec::new();
        if main_present {
            plan.push(Action::Show(WindowId::Main));
            plan.push(Action::Focus(WindowId::Main));
        }
        proof {
            assert(plan@ =~= menu_plan(id@, main_present, capture));
        }
        plan
    } else if str_eq(id, "capture") {
        toggle_capture_window(capture)
    } else if str_eq(id, "quit") {
        let mut plan: Vec<Action> = Vec::new();
        plan.push(Action::Exit(0));
        proof {
            assert(plan@ =~= menu_plan(id@, main_present, capture));
        }
        plan
    } else {
        let plan: Vec<Action> = Vec::new();
        proof {
            assert(plan@ =~= menu_plan(id@, main_present, capture));
        }
        plan
    }
}

/// Law: selecting "open" while the main window exists always issues show and
/// then focus — exactly those two commands, in that order, whatever the
/// capture window's state.  Each command is issued independently: the plan
/// contains both unconditionally, so a failure of one at the host never
/// withholds the other.
pub proof fn lemma_open_shows_then_focuses(capture: Option<Visibility>)
    ensures
        menu_plan("open"@, true, capture) == seq![
            Action::Show(WindowId::Main),
            Action::Focus(WindowId::Main),
        ],
        menu_plan("open"@, true, capture)[0] == Action::Show(WindowId::Main),
        menu_plan("open"@, true, capture)[1] == Action::Focus(WindowId::Main),
{
}

/// Law: "quit" is terminal and unconditional.  Whatever the windows' state,
/// the plan is exactly one command, process exit with code 0; no window
/// command precedes or follows it.
pub proof fn lemma_quit_is_terminal(main_present: bool, capture: Option<Visibility>)
    ensures
        menu_plan("quit"@, main_present, capture) == seq![Action::Exit(0)],
        menu_plan("quit"@, main_present, capture).len() == 1,
{
    reveal_strlit("quit");
    reveal_strlit("open");
    reveal_strlit("capture");
    assert("quit"@[0] == 'q' && "open"@[0] == 'o' && "capture"@[0] == 'c');
    assert("quit"@ != "open"@);
    assert("quit"@ != "capture"@);
}

/// Law: the "capture" menu entry is the toggle, nothing more.  For every
/// window state, its plan is exactly the capture-toggle plan.
pub proof fn lemma_capture_menu_runs_the_toggle(
    main_present: bool,
    capture: Option<Visibility>,
)
    ensures
        menu_plan("capture"@, main_present, capture) == toggle_capture_plan(capture),
{
    reveal_strlit("open");
    reveal_strlit("capture");
    assert("open"@[0] == 'o' && "capture"@[0] == 'c');
    assert("capture"@ != "open"@);
}

/// The commands owed by a tray-icon interaction.
///
/// A left-button release restores the main window when it exists:
/// un-minimize, show, focus, in that order.  Every other button, transition
/// or event kind does nothing.
pub open spec fn tray_plan(event: TrayEvent, main_present: bool) -> Seq<Action> {
    match event {
        TrayEvent::Click {
            button: MouseButton::Left,
            button_state: MouseButtonState::Up,
        } => if main_present {
            seq![
                Action::Unminimize(WindowId::Main),
                Action::Show(WindowId::Main),
                Action::Focus(WindowId::Main),
            ]
        } else {
            Seq::empty()
        },
        _ => Seq::empty(),
    }
}

/// React to a tray-icon interaction.
pub fn handle_tray_icon_event(event: TrayEvent, main_present: bool) -> (plan: Vec<Action>)
    ensures
        plan@ == tray_plan(event, main_present),
{
    let mut plan: Vec<Action> = Vec::new();
    match event {
        TrayEvent::Click {
            button: MouseButton::Left,
            button_state: MouseButtonState::Up,
        } => {
            if main_present {
                plan.push(Action::Unminimize(WindowId::Main));
                plan.push(Action::Show(WindowId::Main));
                plan.push(Action::Focus(WindowId::Main));
            }
        },
        _ => {},
    }
    proof {
        assert(plan@ =~= tray_plan(event, main_present));
    }
    plan
}

/// Law: only a left-button release acts.  A tray plan is non-empty exactly
/// when the event is a click with the left button released and the main
/// window exists — and then it is un-minimize, show, focus, in that order.
/// Every other button, transition or event kind yields the empty plan.
pub proof fn lemma_tray_click_filter(event: TrayEvent, main_present: bool)
    ensures
        tray_plan(event, main_present).len() != 0 <==> (event matches TrayEvent::Click {
            button: MouseButton::Left,
            button_state: MouseButtonState::Up,
        }) && main_present,
        (event matches TrayEvent::Click {
            button: MouseButton::Left,
            button_state: MouseButtonState::Up,
        }) && main_present ==> tray_plan(event, main_present) == seq![
            Action::Unminimize(WindowId::Main),
            Action::Show(WindowId::Main),
            Action::Focus(WindowId::Main),
        ],
{
}

/// The commands owed by a window event on the main window.
///
/// A close request is never honoured: the default close is suppressed and
/// the window is hidden instead, which keeps the process resident in the
/// tray.  Every other event kind does nothing.
pub open spec fn close_plan(event: WindowEventKind) -> Seq<Action> {
    match event {
        WindowEventKind::CloseRequested => seq![
            Action::PreventClose,
            Action::Hide(WindowId::Main),
        ],
        WindowEventKind::Other => Seq::empty(),
    }
}

/// React to a window event delivered for the main window.
pub fn handle_main_window_event(event: WindowEventKind) -> (plan: Vec<Action>)
    ensures
        plan@ == close_plan(event),
{
    let mut plan: Vec<Action> = Vec::new();
    match event {
        WindowEventKind::CloseRequested => {
            plan.push(Action::PreventClose);
            plan.push(Action::Hide(WindowId::Main));
        },
        WindowEventKind::Other => {},
    }
    proof {
        assert(plan@ =~= close_plan(event));
    }
    plan
}

/// Law: a close request on the main window is always intercepted.  The plan
/// for every close-requested event suppresses the default close first and
/// then hides the window — it never contains a command that would destroy
/// it, so the process stays resident in the tray.
pub proof fn lemma_close_always_suppressed()
    ensures
        close_plan(WindowEventKind::CloseRequested) == seq![
            Action::PreventClose,
            Action::Hide(WindowId::Main),
        ],
        close_plan(WindowEventKind::CloseRequested)[0] == Action::PreventClose,
        count_of(
            close_plan(WindowEventKind::CloseRequested),
            Action::Hide(WindowId::Main),
        ) == 1,
{
    reveal_with_fuel(count_of, 4);
}

/// Law: a missing window is a no-op everywhere.  Whenever the window a
/// handler would address does not exist, the handler's plan is empty — no
/// command is issued and no error is raised.
pub proof fn lemma_missing_window_is_noop(
    event: TrayEvent,
    main_present: bool,
    capture: Option<Visibility>,
)
    ensures
        toggle_capture_plan(Option::None) == Seq::<Action>::empty(),
        menu_plan("open"@, false, capture) == Seq::<Action>::empty(),
        menu_plan("capture"@, main_present, Option::None) == Seq::<Action>::empty(),
        tray_plan(event, false) == Seq::<Action>::empty(),
{
    reveal_strlit("open");
    reveal_strlit("capture");
    assert("open"@[0] == 'o' && "capture"@[0] == 'c');
    assert("capture"@ != "open"@);
}

} // verus!
