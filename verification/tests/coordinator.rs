use glimt::actions::Action;
use glimt::actions::WindowId;
use glimt::coordinator::handle_main_window_event;
use glimt::coordinator::handle_menu_event;
use glimt::coordinator::handle_tray_icon_event;
use glimt::coordinator::toggle_capture_window;
use glimt::events::MouseButton;
use glimt::events::MouseButtonState;
use glimt::events::TrayEvent;
use glimt::events::Visibility;
use glimt::events::WindowEventKind;

#[test]
fn toggle_hides_a_visible_capture_window() {
    let plan = toggle_capture_window(Some(Visibility::Visible));
    assert_eq!(plan, vec![Action::Hide(WindowId::Capture)]);
}

#[test]
fn toggle_shows_then_focuses_a_hidden_capture_window() {
    let plan = toggle_capture_window(Some(Visibility::Hidden));
    assert_eq!(
        plan,
        vec![
            Action::Show(WindowId::Capture),
            Action::Focus(WindowId::Capture)
        ]
    );
}

#[test]
fn toggle_treats_a_failed_visibility_query_as_hidden() {
    let plan = toggle_capture_window(Some(Visibility::Unknown));
    assert_eq!(
        plan,
        vec![
            Action::Show(WindowId::Capture),
            Action::Focus(WindowId::Capture)
        ]
    );
}

#[test]
fn toggle_does_nothing_without_a_capture_window() {
    let plan = toggle_capture_window(None);
    assert_eq!(plan, vec![]);
}

#[test]
fn open_shows_then_focuses_the_main_window() {
    let plan = handle_menu_event("open", true, Some(Visibility::Hidden));
    assert_eq!(
        plan,
        vec![Action::Show(WindowId::Main), Action::Focus(WindowId::Main)]
    );
}

#[test]
fn open_does_nothing_without_a_main_window() {
    let plan = handle_menu_event("open", false, Some(Visibility::Hidden));
    assert_eq!(plan, vec![]);
}

#[test]
fn capture_menu_entry_runs_the_toggle() {
    let plan = handle_menu_event("capture", true, Some(Visibility::Visible));
    assert_eq!(plan, vec![Action::Hide(WindowId::Capture)]);
}

#[test]
fn capture_menu_entry_does_nothing_without_a_capture_window() {
    let plan = handle_menu_event("capture", true, None);
    assert_eq!(plan, vec![]);
}

#[test]
fn quit_exits_with_code_zero_and_nothing_else() {
    let plan = handle_menu_event("quit", true, Some(Visibility::Visible));
    assert_eq!(plan, vec![Action::Exit(0)]);
}

#[test]
fn quit_exits_even_when_no_window_exists() {
    let plan = handle_menu_event("quit", false, None);
    assert_eq!(plan, vec![Action::Exit(0)]);
}

#[test]
fn an_unknown_menu_id_is_ignored() {
    assert_eq!(handle_menu_event("", true, None), vec![]);
    assert_eq!(
        handle_menu_event("settings", true, Some(Visibility::Visible)),
        vec![]
    );
    assert_eq!(handle_menu_event("OPEN", true, None), vec![]);
}

#[test]
fn left_release_restores_the_main_window() {
    let plan = handle_tray_icon_event(
        TrayEvent::Click {
            button: MouseButton::Left,
            button_state: MouseButtonState::Up,
        },
        true,
    );
    assert_eq!(
        plan,
        vec![
            Action::Unminimize(WindowId::Main),
            Action::Show(WindowId::Main),
            Action::Focus(WindowId::Main)
        ]
    );
}

#[test]
fn every_other_click_combination_is_ignored() {
    let buttons = [MouseButton::Left, MouseButton::Right, MouseButton::Middle];
    let states = [MouseButtonState::Up, MouseButtonState::Down];
    for button in buttons {
        for button_state in states {
            if button == MouseButton::Left && button_state == MouseButtonState::Up {
                continue;
            }
            let plan = handle_tray_icon_event(
                TrayEvent::Click {
                    button,
                    button_state,
                },
                true,
            );
            assert_eq!(plan, vec![]);
        }
    }
}

#[test]
fn non_click_tray_events_are_ignored() {
    let events = [
        TrayEvent::DoubleClick {
            button: MouseButton::Left,
        },
        TrayEvent::Enter,
        TrayEvent::Move,
        TrayEvent::Leave,
    ];
    for event in events {
        assert_eq!(handle_tray_icon_event(event, true), vec![]);
    }
}

#[test]
fn a_left_release_without_a_main_window_does_nothing() {
    let plan = handle_tray_icon_event(
        TrayEvent::Click {
            button: MouseButton::Left,
            button_state: MouseButtonState::Up,
        },
        false,
    );
    assert_eq!(plan, vec![]);
}

#[test]
fn a_close_request_is_turned_into_a_hide() {
    let plan = handle_main_window_event(WindowEventKind::CloseRequested);
    assert_eq!(
        plan,
        vec![Action::PreventClose, Action::Hide(WindowId::Main)]
    );
}

#[test]
fn other_window_events_are_ignored() {
    assert_eq!(handle_main_window_event(WindowEventKind::Other), vec![]);
}
