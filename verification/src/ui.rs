//! The window's behaviour: which command each user or timer event triggers,
//! and the values that the interval dialog shows and saves.
//!
//! The windowing toolkit reports an event together with the control it came
//! from; the program turns that pair into commands and carries them out.

use vstd::prelude::*;
use vstd::string::StringExecFns;
use crate::settings::DEFAULT_INTERVAL_SECS;

verus! {

/// The kinds of window events the program reacts to.
#[derive(Clone, Copy, Debug, PartialEq, Eq, Structural)]
pub enum UiEvent {
    ButtonClick,
    MenuItemSelected,
    /// The left mouse button was released over the control.
    LeftMouseUp,
    TimerTick,
    ContextMenu,
    WindowClose,
    Other,
}

/// The controls that events come from.
#[derive(Clone, Copy, Debug, PartialEq, Eq, Structural)]
pub enum Control {
    MinimizeButton,
    SettingsButton,
    HelpButton,
    ExitButton,
    SupportButton,
    VersionButton,
    SaveSettingsButton,
    CancelSettingsButton,
    CloseHelpButton,
    TrayShowItem,
    TrayExitItem,
    Tray,
    UpdateTimer,
    MainWindow,
    SettingsWindow,
    HelpWindow,
    Other,
}

/// What the program does in answer to an event.
#[derive(Clone, Copy, Debug, PartialEq, Eq, Structural)]
pub enum UiCommand {
    /// Hide the main window; the tray icon stays.
    MinimizeToTray,
    /// Show, restore and focus the main window.
    RestoreFromTray,
    /// Leave the program.
    Exit,
    /// Show the interval dialog with the current interval.
    OpenSettings,
    /// Store the interval chosen in the dialog, and close it.
    SaveSettings,
    /// Close the interval dialog without storing anything.
    CancelSettings,
    OpenHelp,
    CloseHelp,
    /// Open the support page in the browser.
    OpenSupportPage,
    /// Open the release page in the browser.
    ViewRelease,
    /// Show the tray menu at the mouse cursor.
    ShowTrayMenu,
    /// Give the version button its update look and stop the update timer.
    MarkUpdateAvailable,
}

/// The commands for `event` from `control`, where `update_found` tells
/// whether a newer release was found so far, and `timer_running` whether
/// the update timer still runs (a stopped timer sends no ticks).
pub open spec fn routed(event: UiEvent, control: Control, update_found: bool, timer_running: bool) -> Seq<UiCommand> {
    match event {
        UiEvent::ButtonClick => match control {
            Control::MinimizeButton => seq![UiCommand::MinimizeToTray],
            Control::SettingsButton => seq![UiCommand::OpenSettings],
            Control::ExitButton => seq![UiCommand::Exit],
            Control::SaveSettingsButton => seq![UiCommand::SaveSettings],
            Control::CancelSettingsButton => seq![UiCommand::CancelSettings],
            Control::HelpButton => seq![UiCommand::OpenHelp],
            Control::CloseHelpButton => seq![UiCommand::CloseHelp],
            Control::SupportButton => seq![UiCommand::OpenSupportPage],
            Control::VersionButton => seq![UiCommand::ViewRelease],
            _ => seq![],
        },
        UiEvent::MenuItemSelected => match control {
            Control::TrayShowItem => seq![UiCommand::RestoreFromTray],
            Control::TrayExitItem => seq![UiCommand::Exit],
            _ => seq![],
        },
        UiEvent::LeftMouseUp => if control == Control::Tray {
            seq![UiCommand::RestoreFromTray]
        } else {
            seq![]
        },
        UiEvent::TimerTick => if control == Control::UpdateTimer && timer_running && update_found {
            seq![UiCommand::MarkUpdateAvailable, UiCommand::RestoreFromTray]
        } else {
            seq![]
        },
        UiEvent::ContextMenu => if control == Control::Tray {
            seq![UiCommand::ShowTrayMenu]
        } else {
            seq![]
        },
        UiEvent::WindowClose => match control {
            Control::MainWindow => seq![UiCommand::MinimizeToTray],
            Control::SettingsWindow => seq![UiCommand::CancelSettings],
            Control::HelpWindow => seq![UiCommand::CloseHelp],
            _ => seq![],
        },
        UiEvent::Other => seq![],
    }
}

fn one(c: UiCommand) -> (res: Vec<UiCommand>)
    ensures
        res@ == seq![c],
{
    let mut res: Vec<UiCommand> = Vec::new();
    res.push(c);
    assert(res@ =~= seq![c]);
    res
}

/// Whether the update timer still runs after `commands`, where it ran
/// before them when `timer_running`: marking the update stops it.
pub open spec fn timer_running_after(timer_running: bool, commands: Seq<UiCommand>) -> bool {
    timer_running && !commands.contains(UiCommand::MarkUpdateAvailable)
}

/// Turns an event from a control into the commands to carry out. While the
/// program runs minimized in the tray, a found update brings the window back
/// so that it is not missed; marking the update stops the update timer.
pub fn route_event(event: UiEvent, control: Control, update_found: bool, timer_running: bool) -> (res: Vec<UiCommand>)
    ensures
        res@ == routed(event, control, update_found, timer_running),
{
    let none: Vec<UiCommand> = Vec::new();
    assert(none@ =~= Seq::<UiCommand>::empty());
    match event {
        UiEvent::ButtonClick => {
            if control == Control::MinimizeButton {
                one(UiCommand::MinimizeToTray)
            } else if control == Control::SettingsButton {
                one(UiCommand::OpenSettings)
            } else if control == Control::ExitButton {
                one(UiCommand::Exit)
            } else if control == Control::SaveSettingsButton {
                one(UiCommand::SaveSettings)
            } else if control == Control::CancelSettingsButton {
                one(UiCommand::CancelSettings)
            } else if control == Control::HelpButton {
                one(UiCommand::OpenHelp)
            } else if control == Control::CloseHelpButton {
                one(UiCommand::CloseHelp)
            } else if control == Control::SupportButton {
                one(UiCommand::OpenSupportPage)
            } else if control == Control::VersionButton {
                one(UiCommand::ViewRelease)
            } else {
                none
            }
        },
        UiEvent::MenuItemSelected => {
            if control == Control::TrayShowItem {
                one(UiCommand::RestoreFromTray)
            } else if control == Control::TrayExitItem {
                one(UiCommand::Exit)
            } else {
                none
            }
        },
        UiEvent::LeftMouseUp => {
            if control == Control::Tray {
                one(UiCommand::RestoreFromTray)
            } else {
                none
            }
        },
        UiEvent::TimerTick => {
            if control == Control::UpdateTimer && timer_running && update_found {
                let mut res = one(UiCommand::MarkUpdateAvailable);
                res.push(UiCommand::RestoreFromTray);
                assert(res@ =~= seq![UiCommand::MarkUpdateAvailable, UiCommand::RestoreFromTray]);
                res
            } else {
                none
            }
        },
        UiEvent::ContextMenu => {
            if control == Control::Tray {
                one(UiCommand::ShowTrayMenu)
            } else {
                none
            }
        },
        UiEvent::WindowClose => {
            if control == Control::MainWindow {
                one(UiCommand::MinimizeToTray)
            } else if control == Control::SettingsWindow {
                one(UiCommand::CancelSettings)
            } else if control == Control::HelpWindow {
                one(UiCommand::CloseHelp)
            } else {
                none
            }
        },
        UiEvent::Other => none,
    }
}

/// Only the Exit button and the tray menu's Exit item end the program;
/// closing a window never does.
pub proof fn lemma_only_exit_controls_exit(event: UiEvent, control: Control, update_found: bool, timer_running: bool)
    ensures
        routed(event, control, update_found, timer_running).contains(UiCommand::Exit) <==> {
            ||| event == UiEvent::ButtonClick && control == Control::ExitButton
            ||| event == UiEvent::MenuItemSelected && control == Control::TrayExitItem
        },
{
    let r = routed(event, control, update_found, timer_running);
    if r.contains(UiCommand::Exit) {
        let i = choose|i: int| 0 <= i < r.len() && r[i] == UiCommand::Exit;
        assert(r[i] == UiCommand::Exit);
    }
    if event == UiEvent::ButtonClick && control == Control::ExitButton {
        assert(r[0] == UiCommand::Exit);
    }
    if event == UiEvent::MenuItemSelected && control == Control::TrayExitItem {
        assert(r[0] == UiCommand::Exit);
    }
}

/// Apart from the update timer's ticks, what an event triggers depends only
/// on the event and its control: neither a found update nor the timer's
/// state changes it. In particular the version button always opens the
/// release page, also after the update was marked.
pub proof fn lemma_routing_ignores_update_state(
    event: UiEvent,
    control: Control,
    update_found: bool,
    timer_running: bool,
    other_found: bool,
    other_running: bool,
)
    requires
        event != UiEvent::TimerTick,
    ensures
        routed(event, control, update_found, timer_running) == routed(event, control, other_found, other_running),
        routed(UiEvent::ButtonClick, Control::VersionButton, update_found, timer_running)
            == seq![UiCommand::ViewRelease],
        routed(UiEvent::ButtonClick, Control::SupportButton, update_found, timer_running)
            == seq![UiCommand::OpenSupportPage],
{
}

/// Closing the main window does what the Minimize button does: the program
/// goes on in the tray.
pub proof fn lemma_close_main_window_minimizes(update_found: bool, timer_running: bool)
    ensures
        routed(UiEvent::WindowClose, Control::MainWindow, update_found, timer_running)
            == routed(UiEvent::ButtonClick, Control::MinimizeButton, update_found, timer_running),
        routed(UiEvent::WindowClose, Control::MainWindow, update_found, timer_running)
            == seq![UiCommand::MinimizeToTray],
{
}

/// The version button takes its update look only on a tick of the running
/// update timer, and only once an update was found; a tick brings the window
/// back only together with that mark.
pub proof fn lemma_update_mark_needs_update(event: UiEvent, control: Control, update_found: bool, timer_running: bool)
    ensures
        routed(event, control, update_found, timer_running).contains(UiCommand::MarkUpdateAvailable) ==> {
            &&& update_found
            &&& timer_running
            &&& event == UiEvent::TimerTick
            &&& control == Control::UpdateTimer
        },
        event == UiEvent::TimerTick && routed(event, control, update_found, timer_running).contains(
            UiCommand::RestoreFromTray,
        ) ==> routed(event, control, update_found, timer_running).contains(UiCommand::MarkUpdateAvailable),
{
    let r = routed(event, control, update_found, timer_running);
    if event == UiEvent::TimerTick && r.contains(UiCommand::RestoreFromTray) {
        assert(r[0] == UiCommand::MarkUpdateAvailable);
    }
    if r.contains(UiCommand::MarkUpdateAvailable) {
        let i = choose|i: int| 0 <= i < r.len() && r[i] == UiCommand::MarkUpdateAvailable;
        assert(r[i] == UiCommand::MarkUpdateAvailable);
    }
}

/// The update timer's state after the events `events`, each an event, its
/// control and whether an update was found by then, where the timer ran
/// before them when `timer_running`.
pub open spec fn session_timer(timer_running: bool, events: Seq<(UiEvent, Control, bool)>) -> bool
    decreases events.len(),
{
    if events.len() == 0 {
        timer_running
    } else {
        let before = session_timer(timer_running, events.drop_last());
        let e = events.last();
        timer_running_after(before, routed(e.0, e.1, e.2, before))
    }
}

/// How often the update mark is routed over the events `events`.
pub open spec fn session_marks(timer_running: bool, events: Seq<(UiEvent, Control, bool)>) -> nat
    decreases events.len(),
{
    if events.len() == 0 {
        0
    } else {
        let before = session_timer(timer_running, events.drop_last());
        let e = events.last();
        session_marks(timer_running, events.drop_last()) + if routed(e.0, e.1, e.2, before).contains(
            UiCommand::MarkUpdateAvailable,
        ) {
            1nat
        } else {
            0nat
        }
    }
}

/// Over any sequence of events, the update mark (and the window coming back
/// with it) is routed at most once: exactly once if the timer, running at
/// the start, has been stopped by the end, and never if it was not running.
/// Each mark needs a found update (`lemma_update_mark_needs_update`).
pub proof fn lemma_update_marked_at_most_once(timer_running: bool, events: Seq<(UiEvent, Control, bool)>)
    ensures
        session_timer(timer_running, events) ==> timer_running,
        session_marks(timer_running, events) == if timer_running && !session_timer(timer_running, events) {
            1nat
        } else {
            0nat
        },
        session_marks(timer_running, events) <= 1,
    decreases events.len(),
{
    if events.len() > 0 {
        let rest = events.drop_last();
        lemma_update_marked_at_most_once(timer_running, rest);
        let before = session_timer(timer_running, rest);
        let e = events.last();
        lemma_update_mark_needs_update(e.0, e.1, e.2, before);
    }
}

/// Smallest interval the dialog offers, in minutes.
pub const MIN_INTERVAL_MINUTES: i64 = 1;

/// Largest interval the dialog offers, in minutes.
pub const MAX_INTERVAL_MINUTES: i64 = 120;

/// Minutes assumed when the dialog holds no whole number.
pub const FALLBACK_INTERVAL_MINUTES: u64 = 4;

/// What the interval dialog's number field shows: a value in minutes, with
/// its step and bounds.
#[derive(Clone, Copy, Debug, PartialEq, Eq, Structural)]
pub struct IntervalSelector {
    pub value: i64,
    pub step: i64,
    pub min: i64,
    pub max: i64,
}

/// The minutes shown for an interval: whole minutes, at least one.
pub open spec fn shown_minutes(interval_secs: u64) -> int {
    if interval_secs / 60 < 1 {
        1
    } else {
        (interval_secs / 60) as int
    }
}

/// The interval field for the interval `interval_secs`: its whole minutes,
/// at least one, between the dialog's bounds in steps of one minute.
pub fn interval_selector(interval_secs: u64) -> (res: IntervalSelector)
    ensures
        res.value == shown_minutes(interval_secs),
        res.step == 1,
        res.min == MIN_INTERVAL_MINUTES,
        res.max == MAX_INTERVAL_MINUTES,
{
    let minutes = interval_secs / 60;
    let minutes = if minutes < 1 { 1 } else { minutes };
    IntervalSelector {
        value: minutes as i64,
        step: 1,
        min: MIN_INTERVAL_MINUTES,
        max: MAX_INTERVAL_MINUTES,
    }
}

/// The interval in seconds that saving the dialog stores, for the field's
/// content: its minutes (at least one) where it holds a whole number, else
/// the fallback of four minutes.
pub open spec fn saved_interval(selected: Option<i64>) -> int {
    match selected {
        Some(v) => if v < 1 {
            60
        } else {
            v * 60
        },
        None => FALLBACK_INTERVAL_MINUTES * 60,
    }
}

/// The interval in seconds to store for the dialog's content `selected`
/// (`None` where the field does not hold a whole number).
pub fn interval_secs_from_selection(selected: Option<i64>) -> (secs: u64)
    requires
        selected matches Some(v) ==> v <= u64::MAX / 60,
    ensures
        secs == saved_interval(selected),
{
    let minutes: u64 = match selected {
        Some(v) => if v < 1 { 1 } else { v as u64 },
        None => FALLBACK_INTERVAL_MINUTES,
    };
    minutes * 60
}

/// Opening the dialog and saving it unchanged keeps an interval that is a
/// whole number of minutes, at least one.
pub proof fn lemma_dialog_roundtrip(interval_secs: u64)
    requires
        interval_secs % 60 == 0,
        interval_secs >= 60,
    ensures
        saved_interval(Some(shown_minutes(interval_secs) as i64)) == interval_secs,
{
    assert(interval_secs / 60 * 60 == interval_secs);
}

/// What saving the dialog stores is always a whole number of minutes, and
/// at least a minute.
pub proof fn lemma_saved_interval_whole_minutes(selected: Option<i64>)
    ensures
        saved_interval(selected) % 60 == 0,
        saved_interval(selected) >= 60,
{
    match selected {
        Some(v) => if v >= 1 {
            assert((v * 60) % 60 == 0) by (nonlinear_arith);
            assert(v * 60 >= 60) by (nonlinear_arith) requires v >= 1;
        },
        None => {},
    }
}

/// The dialog shows the whole minutes of the interval, rounded down, and at
/// least one; saving stores the chosen minutes, at least one, times sixty.
pub proof fn lemma_dialog_minutes(interval_secs: u64, chosen: i64)
    ensures
        interval_secs >= 60 ==> shown_minutes(interval_secs) * 60 <= interval_secs < shown_minutes(interval_secs) * 60 + 60,
        interval_secs < 60 ==> shown_minutes(interval_secs) == 1,
        chosen >= 1 ==> saved_interval(Some(chosen)) == 60 * chosen,
        chosen < 1 ==> saved_interval(Some(chosen)) == 60,
{
}

/// The dialog shows four minutes for the default interval.
pub proof fn lemma_default_interval_shows_four_minutes()
    ensures
        shown_minutes(DEFAULT_INTERVAL_SECS) == 4,
        saved_interval(Some(4)) == DEFAULT_INTERVAL_SECS,
{
}

/// The support page that the Support button opens.
pub open spec fn support_page() -> Seq<char> {
    "https://ko-fi.com/hackpig1974"@
}

/// The address of the support page.
pub fn support_page_url() -> (res: String)
    ensures
        res@ == support_page(),
{
    String::from_str("https://ko-fi.com/hackpig1974")
}

/// The text of the version button: `v` and the version.
pub fn version_label(version: &str) -> (res: String)
    ensures
        res@ == "v"@ + version@,
{
    let mut res = String::from_str("v");
    res.append(version);
    res
}

/// The help window's text after its first line.
pub const HELP_BODY: &'static str = "\r\n\r\nThis keeps your screen from locking or showing a screensaver during things like video calls and presentations. It works by tapping Scroll Lock twice every few minutes -- toggling it on, then back off -- which resets Windows' idle timer without changing your actual Scroll Lock state. The interval is configurable from the gear icon.\r\n\r\nMinimize sends this to the tray. Exit closes it completely.";

/// The help window's text for the program's version.
pub fn help_text(version: &str) -> (res: String)
    ensures
        res@ == "Scroll Lock Keeper v"@ + version@ + HELP_BODY@,
{
    let mut res = String::from_str("Scroll Lock Keeper v");
    res.append(version);
    res.append(HELP_BODY);
    res
}

} // verus!
