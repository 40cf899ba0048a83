use scroll_lock_keeper::ui::{
    help_text, interval_secs_from_selection, interval_selector, route_event, support_page_url, version_label,
    Control, IntervalSelector, UiCommand, UiEvent,
};

#[test]
fn buttons_trigger_their_commands() {
    let cases = [
        (Control::MinimizeButton, UiCommand::MinimizeToTray),
        (Control::SettingsButton, UiCommand::OpenSettings),
        (Control::ExitButton, UiCommand::Exit),
        (Control::SaveSettingsButton, UiCommand::SaveSettings),
        (Control::CancelSettingsButton, UiCommand::CancelSettings),
        (Control::HelpButton, UiCommand::OpenHelp),
        (Control::CloseHelpButton, UiCommand::CloseHelp),
        (Control::SupportButton, UiCommand::OpenSupportPage),
        (Control::VersionButton, UiCommand::ViewRelease),
    ];
    for (control, command) in cases {
        assert_eq!(route_event(UiEvent::ButtonClick, control, false, true), vec![command]);
    }
    assert!(route_event(UiEvent::ButtonClick, Control::Tray, false, true).is_empty());
}

#[test]
fn tray_menu_shows_or_exits() {
    assert_eq!(route_event(UiEvent::MenuItemSelected, Control::TrayShowItem, false, true), vec![UiCommand::RestoreFromTray]);
    assert_eq!(route_event(UiEvent::MenuItemSelected, Control::TrayExitItem, false, true), vec![UiCommand::Exit]);
    assert!(route_event(UiEvent::MenuItemSelected, Control::ExitButton, false, true).is_empty());
}

#[test]
fn tray_icon_restores_and_opens_its_menu() {
    assert_eq!(route_event(UiEvent::LeftMouseUp, Control::Tray, false, true), vec![UiCommand::RestoreFromTray]);
    assert_eq!(route_event(UiEvent::ContextMenu, Control::Tray, false, true), vec![UiCommand::ShowTrayMenu]);
    assert!(route_event(UiEvent::LeftMouseUp, Control::MainWindow, false, true).is_empty());
    assert!(route_event(UiEvent::ContextMenu, Control::MainWindow, false, true).is_empty());
}

#[test]
fn closing_windows_never_exits() {
    assert_eq!(route_event(UiEvent::WindowClose, Control::MainWindow, false, true), vec![UiCommand::MinimizeToTray]);
    assert_eq!(route_event(UiEvent::WindowClose, Control::SettingsWindow, false, true), vec![UiCommand::CancelSettings]);
    assert_eq!(route_event(UiEvent::WindowClose, Control::HelpWindow, true, true), vec![UiCommand::CloseHelp]);
}

#[test]
fn found_update_marks_the_button_and_shows_the_window() {
    assert_eq!(
        route_event(UiEvent::TimerTick, Control::UpdateTimer, true, true),
        vec![UiCommand::MarkUpdateAvailable, UiCommand::RestoreFromTray]
    );
    assert!(route_event(UiEvent::TimerTick, Control::UpdateTimer, false, true).is_empty());
    assert!(route_event(UiEvent::TimerTick, Control::MainWindow, true, true).is_empty());
    assert!(route_event(UiEvent::TimerTick, Control::UpdateTimer, true, false).is_empty());
}

#[test]
fn other_events_do_nothing() {
    assert!(route_event(UiEvent::Other, Control::ExitButton, true, true).is_empty());
}

#[test]
fn dialog_shows_whole_minutes_at_least_one() {
    assert_eq!(interval_selector(240), IntervalSelector { value: 4, step: 1, min: 1, max: 120 });
    assert_eq!(interval_selector(90).value, 1);
    assert_eq!(interval_selector(30).value, 1);
    assert_eq!(interval_selector(0).value, 1);
    assert_eq!(interval_selector(7200).value, 120);
    assert_eq!(interval_selector(u64::MAX).value, (u64::MAX / 60) as i64);
}

#[test]
fn saving_stores_minutes_in_seconds() {
    assert_eq!(interval_secs_from_selection(Some(5)), 300);
    assert_eq!(interval_secs_from_selection(Some(120)), 7200);
    assert_eq!(interval_secs_from_selection(Some(0)), 60);
    assert_eq!(interval_secs_from_selection(Some(-3)), 60);
    assert_eq!(interval_secs_from_selection(None), 240);
}

#[test]
fn dialog_roundtrip_keeps_whole_minutes() {
    for secs in [60u64, 240, 300, 7200] {
        let shown = interval_selector(secs).value;
        assert_eq!(interval_secs_from_selection(Some(shown)), secs);
    }
    assert_eq!(interval_secs_from_selection(Some(interval_selector(90).value)), 60);
}

#[test]
fn labels_carry_the_version() {
    assert_eq!(version_label("0.3.0"), "v0.3.0");
    let help = help_text("0.3.0");
    assert!(help.starts_with("Scroll Lock Keeper v0.3.0\r\n\r\nThis keeps your screen"));
    assert!(help.ends_with("Minimize sends this to the tray. Exit closes it completely."));
}

#[test]
fn update_is_marked_once_per_session() {
    let mut timer_running = true;
    let mut marks = 0;
    let mut restores = 0;
    for _ in 0..5 {
        for command in route_event(UiEvent::TimerTick, Control::UpdateTimer, true, timer_running) {
            match command {
                UiCommand::MarkUpdateAvailable => {
                    marks += 1;
                    timer_running = false;
                }
                UiCommand::RestoreFromTray => restores += 1,
                _ => {}
            }
        }
    }
    assert_eq!(marks, 1);
    assert_eq!(restores, 1);
}

#[test]
fn support_button_opens_the_support_page() {
    assert_eq!(support_page_url(), "https://ko-fi.com/hackpig1974");
}
