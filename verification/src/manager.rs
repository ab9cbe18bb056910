//! The manager: one event after another, each turned into a new state and the work it calls for.

use crate::config::{watches, with_game, without_game, Game, GameEntry, Settings};
use crate::hdr::DisplayState;
use crate::state::{released, restoring, AppModel, AppState, HdrAction, HdrPlan};
use crate::text::{decimal, decimal_text, joined};
use crate::wmi_monitor::{ProcessEvent, ProcessNote};
use vstd::prelude::*;

verus! {

/// The identity of a menu item.
#[derive(Debug)]
pub struct MenuId(pub String);

impl View for MenuId {
    type V = Seq<char>;

    open spec fn view(&self) -> Seq<char> {
        self.0@
    }
}

impl Clone for MenuId {
    fn clone(&self) -> (r: MenuId)
        ensures
            r@ == self@,
    {
        MenuId(self.0.clone())
    }
}

/// The items of the tray menu that can be chosen.
#[derive(Debug)]
pub struct MenuIds {
    pub open_id: MenuId,
    pub exit_id: MenuId,
    pub restore_id: MenuId,
    pub toggle_id: MenuId,
}

/// What a choice in the tray menu stands for.
#[derive(Clone, Copy, Debug, PartialEq, Eq, Structural)]
pub enum MenuChoice {
    Open,
    Exit,
    FlipRestore,
    Toggle,
    Unknown,
}

impl MenuIds {
    /// What the item of this identity stands for; the first match counts.
    pub open spec fn choice_of(self, id: Seq<char>) -> MenuChoice {
        if id == self.open_id@ {
            MenuChoice::Open
        } else if id == self.exit_id@ {
            MenuChoice::Exit
        } else if id == self.restore_id@ {
            MenuChoice::FlipRestore
        } else if id == self.toggle_id@ {
            MenuChoice::Toggle
        } else {
            MenuChoice::Unknown
        }
    }

    /// What the item of this identity stands for.
    pub fn choice(&self, id: &MenuId) -> (r: MenuChoice)
        ensures
            r == self.choice_of(id@),
    {
        if id.0 == self.open_id.0 {
            MenuChoice::Open
        } else if id.0 == self.exit_id.0 {
            MenuChoice::Exit
        } else if id.0 == self.restore_id.0 {
            MenuChoice::FlipRestore
        } else if id.0 == self.toggle_id.0 {
            MenuChoice::Toggle
        } else {
            MenuChoice::Unknown
        }
    }
}

/// Commands that the user interface sends.
#[derive(Debug)]
pub enum AppCmd {
    AddGame(GameEntry),
    RemoveGame(usize),
    SetRestoreOnExit(bool),
    ToggleHdr,
    Shutdown,
}

/// Events flowing into the manager.
#[derive(Debug)]
pub enum AppEvent {
    Process(ProcessEvent),
    TrayLeft,
    Menu(MenuId),
    Cmd(AppCmd),
}

/// A command as text and numbers.
pub enum Command {
    AddGame(Game),
    RemoveGame(int),
    SetRestoreOnExit(bool),
    ToggleHdr,
    Shutdown,
}

/// An event as text and numbers, with menu choices already told apart.
pub enum Occasion {
    Process(ProcessNote),
    TrayLeft,
    Menu(MenuChoice),
    Cmd(Command),
}

impl View for AppCmd {
    type V = Command;

    open spec fn view(&self) -> Command {
        match self {
            AppCmd::AddGame(entry) => Command::AddGame(entry@),
            AppCmd::RemoveGame(i) => Command::RemoveGame(*i as int),
            AppCmd::SetRestoreOnExit(v) => Command::SetRestoreOnExit(*v),
            AppCmd::ToggleHdr => Command::ToggleHdr,
            AppCmd::Shutdown => Command::Shutdown,
        }
    }
}

impl AppEvent {
    /// What the event is, given the identities of the menu items.
    pub open spec fn occasion(self, ids: MenuIds) -> Occasion {
        match self {
            AppEvent::Process(ev) => Occasion::Process(ev@),
            AppEvent::TrayLeft => Occasion::TrayLeft,
            AppEvent::Menu(id) => Occasion::Menu(ids.choice_of(id@)),
            AppEvent::Cmd(cmd) => Occasion::Cmd(cmd@),
        }
    }
}

/// What the window has to do after an event.
#[derive(Clone, Copy, Debug, PartialEq, Eq, Structural)]
pub enum Wake {
    Nothing,
    /// Show the settings window and bring it to the front.
    Show,
    /// Take the settings window away.
    Hide,
    /// Read the state anew.
    Repaint,
}

/// The work that an event calls for, in this order: the displays, the settings file, the end
/// of the program, the window.
#[derive(Debug)]
pub struct Outcome {
    pub action: HdrAction,
    pub save_config: bool,
    pub exit: bool,
    pub wake: Wake,
}

/// The work that an event calls for, as a value.
pub struct Work {
    pub action: HdrPlan,
    pub save_config: bool,
    pub exit: bool,
    pub wake: Wake,
}

impl View for Outcome {
    type V = Work;

    open spec fn view(&self) -> Work {
        Work {
            action: self.action@,
            save_config: self.save_config,
            exit: self.exit,
            wake: self.wake,
        }
    }
}

/// The state after the user pressed the HDR switch.
pub open spec fn toggled(s: AppModel) -> AppModel {
    if s.hdr_on() {
        AppModel {
            hdr_manually_on: false,
            hdr_override_off: s.active_count > 0,
            needs_tray_refresh: true,
            ..s.logged("[-] HDR disabled manually."@)
        }
    } else {
        AppModel {
            hdr_manually_on: true,
            hdr_override_off: false,
            needs_tray_refresh: true,
            ..s.logged("[+] HDR enabled manually."@)
        }
    }
}

/// What the switch does to the displays.
pub open spec fn toggling(s: AppModel) -> HdrPlan {
    if s.hdr_on() {
        HdrPlan::DisableAll
    } else {
        HdrPlan::EnableAll { save: false }
    }
}

/// What the log says of a watched game that started.
pub open spec fn started_message(s: AppModel, name: Seq<char>) -> Seq<char> {
    if s.idle() {
        "[+] HDR enabled -- "@ + name + " started."@
    } else if s.hdr_override_off {
        "[~] Tracking "@ + name + " (HDR manually off)."@
    } else {
        "[+] "@ + name + " started (HDR already on)."@
    }
}

/// The state after a watched game started. `pre` holds the display states found by the
/// monitor, where it enabled HDR already.
pub open spec fn game_started(
    s: AppModel,
    name: Seq<char>,
    pre: Option<Seq<DisplayState>>,
) -> AppModel {
    AppModel {
        active_count: s.active_count + 1,
        saved_states: if s.idle() && pre is Some {
            pre
        } else {
            s.saved_states
        },
        needs_tray_refresh: true,
        ..s.logged(started_message(s, name))
    }
}

/// How many games are left once one of them stopped.
pub open spec fn games_left(s: AppModel) -> nat {
    if s.active_count > 0 {
        (s.active_count - 1) as nat
    } else {
        0
    }
}

/// The state after a watched game stopped. The last one ends what the user switched on by hand
/// where the states from before the games are brought back. Where they are not, HDR that was
/// switched on by hand stays on. Either way nothing stays saved.
pub open spec fn game_stopped(s: AppModel, name: Seq<char>) -> AppModel {
    let left = games_left(s);
    if left > 0 {
        AppModel {
            active_count: left,
            needs_tray_refresh: true,
            ..s.logged(
                "[-] "@ + name + " exited ("@ + decimal_text(left) + " game(s) still running)."@,
            )
        }
    } else if s.hdr_manually_on && restoring(s) is Nothing {
        AppModel {
            active_count: 0,
            hdr_override_off: false,
            saved_states: None,
            needs_tray_refresh: true,
            ..s
        }
    } else {
        AppModel {
            active_count: 0,
            hdr_manually_on: false,
            hdr_override_off: false,
            saved_states: None,
            needs_tray_refresh: true,
            ..s.logged(
                if s.settings.restore_on_exit {
                    "[-] HDR restored -- "@ + name + " exited."@
                } else {
                    "[-] "@ + name + " exited (HDR left on)."@
                },
            )
        }
    }
}

/// The state after a process event. Processes that are not watched change nothing.
pub open spec fn process_noted(s: AppModel, ev: ProcessNote) -> AppModel {
    match ev {
        ProcessNote::WmiError(msg) => s.logged("[!] "@ + msg),
        ProcessNote::Started(name, pre) => if watches(s.settings.games, name) {
            game_started(s, name, pre)
        } else {
            s
        },
        ProcessNote::Stopped(name) => if watches(s.settings.games, name) {
            game_stopped(s, name)
        } else {
            s
        },
    }
}

/// What a process event does to the displays: the first game enables HDR, unless the monitor
/// did; the last one brings the saved states back, where the settings say so.
pub open spec fn process_plan(s: AppModel, ev: ProcessNote) -> HdrPlan {
    match ev {
        ProcessNote::WmiError(msg) => HdrPlan::Nothing,
        ProcessNote::Started(name, pre) => if watches(s.settings.games, name) && s.idle()
            && pre is None {
            HdrPlan::EnableAll { save: true }
        } else {
            HdrPlan::Nothing
        },
        ProcessNote::Stopped(name) => if watches(s.settings.games, name) && games_left(s) == 0 {
            restoring(s)
        } else {
            HdrPlan::Nothing
        },
    }
}

pub open spec fn shown(s: AppModel) -> AppModel {
    AppModel { window_open: true, needs_tray_refresh: true, needs_taskbar_show: true, ..s }
}

pub open spec fn refreshed(s: AppModel) -> AppModel {
    AppModel { needs_tray_refresh: true, ..s }
}

pub open spec fn with_settings(s: AppModel, settings: Settings) -> AppModel {
    AppModel { settings, ..s }
}

/// The settings after a command.
pub open spec fn commanded(settings: Settings, cmd: Command) -> Settings {
    match cmd {
        Command::AddGame(g) => Settings { games: with_game(settings.games, g), ..settings },
        Command::RemoveGame(i) => Settings { games: without_game(settings.games, i), ..settings },
        Command::SetRestoreOnExit(v) => Settings { restore_on_exit: v, ..settings },
        _ => settings,
    }
}

/// Whether a command leaves something to be saved.
pub open spec fn command_saves(settings: Settings, cmd: Command) -> bool {
    match cmd {
        Command::AddGame(g) => !watches(settings.games, g.exe_name),
        Command::RemoveGame(i) => 0 <= i < settings.games.len(),
        Command::SetRestoreOnExit(v) => true,
        _ => false,
    }
}

pub open spec fn flipped(settings: Settings) -> Settings {
    Settings { restore_on_exit: !settings.restore_on_exit, ..settings }
}

/// Whether the event ends the program.
pub open spec fn exits(ev: Occasion) -> bool {
    ev == Occasion::Menu(MenuChoice::Exit) || ev == Occasion::Cmd(Command::Shutdown)
}

/// Whether the user pressed the HDR switch.
pub open spec fn toggles(ev: Occasion) -> bool {
    ev == Occasion::Menu(MenuChoice::Toggle) || ev == Occasion::Cmd(Command::ToggleHdr)
}

/// The state after an event.
pub open spec fn next_state(s: AppModel, ev: Occasion) -> AppModel {
    if exits(ev) {
        released(s)
    } else if toggles(ev) {
        toggled(s)
    } else {
        match ev {
            Occasion::Process(p) => refreshed(process_noted(s, p)),
            Occasion::TrayLeft => if s.window_open {
                AppModel { window_open: false, needs_taskbar_hide: true, ..s }
            } else {
                shown(s)
            },
            Occasion::Menu(MenuChoice::Open) => shown(s),
            Occasion::Menu(MenuChoice::FlipRestore) => refreshed(
                with_settings(s, flipped(s.settings)),
            ),
            Occasion::Menu(_) => s,
            Occasion::Cmd(cmd) => refreshed(with_settings(s, commanded(s.settings, cmd))),
        }
    }
}

/// What an event does to the displays.
pub open spec fn next_plan(s: AppModel, ev: Occasion) -> HdrPlan {
    if exits(ev) {
        restoring(s)
    } else if toggles(ev) {
        toggling(s)
    } else {
        match ev {
            Occasion::Process(p) => process_plan(s, p),
            _ => HdrPlan::Nothing,
        }
    }
}

/// The work that an event calls for.
pub open spec fn next_work(s: AppModel, ev: Occasion) -> Work {
    Work {
        action: next_plan(s, ev),
        save_config: match ev {
            Occasion::Menu(choice) => choice == MenuChoice::FlipRestore,
            Occasion::Cmd(cmd) => command_saves(s.settings, cmd),
            _ => false,
        },
        exit: exits(ev),
        wake: if exits(ev) {
            Wake::Nothing
        } else {
            match ev {
                Occasion::TrayLeft => if s.window_open {
                    Wake::Hide
                } else {
                    Wake::Show
                },
                Occasion::Menu(MenuChoice::Open) => Wake::Show,
                Occasion::Menu(MenuChoice::Unknown) => Wake::Nothing,
                _ => Wake::Repaint,
            }
        },
    }
}

/// The event does not count past the last number there is.
pub open spec fn countable(s: AppModel, ev: ProcessNote) -> bool {
    match ev {
        ProcessNote::Started(name, pre) => watches(s.settings.games, name) ==> s.active_count
            < usize::MAX,
        _ => true,
    }
}

/// Switches HDR by hand: off where it is meant to be on, on where it is not.
pub fn do_toggle_hdr(state: &mut AppState) -> (r: HdrAction)
    ensures
        final(state)@ == toggled(old(state)@),
        r@ == toggling(old(state)@),
{
    let action = if state.hdr_on() {
        state.hdr_manually_on = false;
        state.hdr_override_off = state.active_count > 0;
        state.push_msg("[-] HDR disabled manually.".to_owned());
        HdrAction::DisableAll
    } else {
        state.hdr_manually_on = true;
        state.hdr_override_off = false;
        state.push_msg("[+] HDR enabled manually.".to_owned());
        HdrAction::EnableAll { save: false }
    };
    state.needs_tray_refresh = true;
    action
}

/// A process event: counts the watched games and has HDR follow them.
pub fn handle_wmi_event(ev: ProcessEvent, state: &mut AppState) -> (r: HdrAction)
    requires
        countable(old(state)@, ev@),
    ensures
        final(state)@ == process_noted(old(state)@, ev@),
        r@ == process_plan(old(state)@, ev@),
{
    match ev {
        ProcessEvent::WmiError(msg) => {
            let mut text = "[!] ".to_owned();
            text.append(msg.as_str());
            state.push_msg(text);
            HdrAction::Nothing
        },
        ProcessEvent::Started(name, pre_enable_states) => {
            if !state.is_watched(name.as_str()) {
                return HdrAction::Nothing;
            }
            let mut action = HdrAction::Nothing;
            state.active_count = state.active_count + 1;
            if state.active_count == 1 && !state.hdr_manually_on && !state.hdr_override_off {
                if let Some(saved) = pre_enable_states {
                    state.saved_states = Some(saved);
                } else {
                    action = HdrAction::EnableAll { save: true };
                }
                state.push_msg(joined("[+] HDR enabled -- ", name.as_str(), " started."));
            } else if state.hdr_override_off {
                state.push_msg(joined("[~] Tracking ", name.as_str(), " (HDR manually off)."));
            } else {
                state.push_msg(joined("[+] ", name.as_str(), " started (HDR already on)."));
            }
            state.needs_tray_refresh = true;
            action
        },
        ProcessEvent::Stopped(name) => {
            if !state.is_watched(name.as_str()) {
                return HdrAction::Nothing;
            }
            let mut action = HdrAction::Nothing;
            state.active_count = state.active_count.saturating_sub(1);
            if state.active_count == 0 {
                state.hdr_override_off = false;
                if state.config.restore_on_exit && state.saved_states.is_some() {
                    // The displays go back to what they were before the games, so HDR is no
                    // longer what the user switched it to.
                    state.hdr_manually_on = false;
                }
                if state.hdr_manually_on {
                    state.saved_states = None;
                } else {
                    if state.config.restore_on_exit {
                        action = state.leave();
                        state.push_msg(joined("[-] HDR restored -- ", name.as_str(), " exited."));
                    } else {
                        state.saved_states = None;
                        state.push_msg(joined("[-] ", name.as_str(), " exited (HDR left on)."));
                    }
                }
            } else {
                let head = joined("[-] ", name.as_str(), " exited (");
                let left = decimal(state.active_count);
                state.push_msg(joined(head.as_str(), left.as_str(), " game(s) still running)."));
            }
            state.needs_tray_refresh = true;
            action
        },
    }
}

/// Whether the count of running games has room for the event.
pub fn has_room(state: &AppState, ev: &AppEvent) -> (r: bool)
    ensures
        r == (*ev matches AppEvent::Process(p) ==> countable(state@, p@)),
{
    match ev {
        AppEvent::Process(ProcessEvent::Started(name, _)) => state.active_count < usize::MAX
            || !state.is_watched(name.as_str()),
        _ => true,
    }
}

/// One round of the manager: takes an event in and says what it calls for.
pub fn step(state: &mut AppState, ev: AppEvent, ids: &MenuIds) -> (r: Outcome)
    requires
        ev matches AppEvent::Process(p) ==> countable(old(state)@, p@),
    ensures
        final(state)@ == next_state(old(state)@, ev.occasion(*ids)),
        r@ == next_work(old(state)@, ev.occasion(*ids)),
{
    let mut need_show = false;
    let mut need_hide = false;
    let mut need_repaint = false;
    let mut save_config = false;
    let mut action = HdrAction::Nothing;
    match ev {
        AppEvent::Process(pev) => {
            action = handle_wmi_event(pev, state);
            need_repaint = true;
        },
        AppEvent::TrayLeft => {
            if state.window_open {
                state.window_open = false;
                need_hide = true;
            } else {
                need_show = true;
            }
        },
        AppEvent::Menu(id) => {
            match ids.choice(&id) {
                MenuChoice::Open => {
                    need_show = true;
                },
                MenuChoice::Exit => {
                    let last = state.leave();
                    return Outcome {
                        action: last,
                        save_config: false,
                        exit: true,
                        wake: Wake::Nothing,
                    };
                },
                MenuChoice::FlipRestore => {
                    state.config.restore_on_exit = !state.config.restore_on_exit;
                    save_config = true;
                    need_repaint = true;
                },
                MenuChoice::Toggle => {
                    action = do_toggle_hdr(state);
                    need_repaint = true;
                },
                MenuChoice::Unknown => {},
            }
        },
        AppEvent::Cmd(cmd) => {
            match cmd {
                AppCmd::AddGame(entry) => {
                    save_config = state.config.add_game(entry);
                },
                AppCmd::RemoveGame(i) => {
                    save_config = state.config.remove_game(i);
                },
                AppCmd::SetRestoreOnExit(v) => {
                    state.config.restore_on_exit = v;
                    save_config = true;
                },
                AppCmd::ToggleHdr => {
                    action = do_toggle_hdr(state);
                },
                AppCmd::Shutdown => {
                    let last = state.leave();
                    return Outcome {
                        action: last,
                        save_config: false,
                        exit: true,
                        wake: Wake::Nothing,
                    };
                },
            }
            need_repaint = true;
        },
    }
    if need_show {
        state.window_open = true;
        state.needs_tray_refresh = true;
        state.needs_taskbar_show = true;
    }
    if need_hide {
        state.needs_taskbar_hide = true;
    }
    if need_repaint {
        state.needs_tray_refresh = true;
    }
    let wake = if need_show {
        Wake::Show
    } else if need_hide {
        Wake::Hide
    } else if need_repaint {
        Wake::Repaint
    } else {
        Wake::Nothing
    };
    Outcome { action, save_config, exit: false, wake }
}

} // verus!
