//! What each event does: the state and the work after it, told by the state before.

use crate::config::{running, texts, Game, Settings};
use crate::hdr::{after_requests, request, switch_requests, DisplayState};
use crate::manager::{
    next_plan, next_state, next_work, process_noted, process_plan, toggled, toggling, AppCmd,
    AppEvent, Command, MenuChoice, MenuId, MenuIds, Occasion, Wake, Work,
};
use crate::processes::law_running_game_is_noticed;
use crate::session::{scene_after, scene_after_all, Scene};
use crate::state::{
    completed, initial, initial_plan, log_with, plan_requests, released, restoring, AppModel,
    AppState, HdrPlan,
};
use crate::text::{decimal_text, same_ignoring_case};
use crate::wmi_monitor::{enables_at_once, fault_text, Fault, ProcessEvent, ProcessNote, Trace};
use vstd::prelude::*;

verus! {

/// A process whose name is that of game number `i`, up to the case of its letters.
pub open spec fn is_game(s: AppModel, i: int, name: Seq<char>) -> bool {
    0 <= i < s.settings.games.len() && same_ignoring_case(s.settings.games[i].exe_name, name)
}

/// A process that bears the name of no watched game.
pub open spec fn is_no_game(s: AppModel, name: Seq<char>) -> bool {
    forall|i: int|
        0 <= i < s.settings.games.len() ==> !same_ignoring_case(
            (#[trigger] s.settings.games[i]).exe_name,
            name,
        )
}

/// HDR is meant to be on while a game runs or the user switched it on, unless the user switched
/// it off since.
pub proof fn law_when_hdr_is_on(s: AppModel)
    ensures
        s.hdr_override_off ==> !s.hdr_on(),
        s.active_count > 0 && !s.hdr_override_off ==> s.hdr_on(),
        s.hdr_manually_on && !s.hdr_override_off ==> s.hdr_on(),
        s.active_count == 0 && !s.hdr_manually_on ==> !s.hdr_on(),
{
}

/// Every start of a watched game is counted. The first one, while nothing holds HDR on or off,
/// has HDR enabled and the states found before it kept, unless the monitor brings them along.
/// Any other leaves the displays, and what is saved, alone. What the user set stays set.
pub proof fn law_game_starts(s: AppModel, i: int, name: Seq<char>, pre: Option<Seq<DisplayState>>)
    requires
        is_game(s, i, name),
    ensures
        ({
            let ev = ProcessNote::Started(name, pre);
            let first = s.active_count == 0 && !s.hdr_manually_on && !s.hdr_override_off;
            let after = process_noted(s, ev);
            let log = if first {
                "[+] HDR enabled -- "@ + name + " started."@
            } else if s.hdr_override_off {
                "[~] Tracking "@ + name + " (HDR manually off)."@
            } else {
                "[+] "@ + name + " started (HDR already on)."@
            };
            &&& after.active_count == s.active_count + 1
            &&& after.messages == log_with(s.messages, log)
            &&& first && pre is Some ==> after.saved_states == pre
            &&& !(first && pre is Some) ==> after.saved_states == s.saved_states
            &&& after.needs_tray_refresh
            &&& after.settings == s.settings
            &&& after.hdr_manually_on == s.hdr_manually_on
            &&& after.hdr_override_off == s.hdr_override_off
            &&& after.window_open == s.window_open
            &&& after.needs_taskbar_show == s.needs_taskbar_show
            &&& after.needs_taskbar_hide == s.needs_taskbar_hide
            &&& first && pre is None ==> process_plan(s, ev) == (HdrPlan::EnableAll { save: true })
            &&& !(first && pre is None) ==> process_plan(s, ev) == HdrPlan::Nothing
        }),
{
}

/// A watched game that stops while others run is counted out and logged, and nothing else
/// happens: the displays, what is saved and what the user set are left as they are.
pub proof fn law_game_stops_among_others(s: AppModel, i: int, name: Seq<char>)
    requires
        is_game(s, i, name),
        s.active_count > 1,
    ensures
        ({
            let ev = ProcessNote::Stopped(name);
            let left = (s.active_count - 1) as nat;
            &&& process_plan(s, ev) == HdrPlan::Nothing
            &&& process_noted(s, ev) == (AppModel {
                active_count: left,
                needs_tray_refresh: true,
                messages: log_with(
                    s.messages,
                    "[-] "@ + name + " exited ("@ + decimal_text(left)
                        + " game(s) still running)."@,
                ),
                ..s
            })
        }),
{
}

/// The last watched game that stops brings back what is saved, where the settings say so, and
/// ends what the user switched by hand with it. Where nothing is brought back, HDR stays as it
/// is, also where the user switched it on. Nothing stays saved, and HDR is no longer held off.
pub proof fn law_last_game_stops(s: AppModel, i: int, name: Seq<char>)
    requires
        is_game(s, i, name),
        s.active_count <= 1,
    ensures
        ({
            let ev = ProcessNote::Stopped(name);
            let after = process_noted(s, ev);
            let back = s.settings.restore_on_exit && s.saved_states is Some;
            &&& back ==> process_plan(s, ev) == HdrPlan::Restore(s.saved_states->0)
            &&& !back ==> process_plan(s, ev) == HdrPlan::Nothing
            &&& after.active_count == 0
            &&& after.saved_states is None
            &&& !after.hdr_override_off
            &&& after.hdr_manually_on == (s.hdr_manually_on && !back)
            &&& s.hdr_manually_on && !back ==> after.messages == s.messages
            &&& !(s.hdr_manually_on && !back) ==> after.messages == log_with(
                s.messages,
                if s.settings.restore_on_exit {
                    "[-] HDR restored -- "@ + name + " exited."@
                } else {
                    "[-] "@ + name + " exited (HDR left on)."@
                },
            )
            &&& after.needs_tray_refresh
            &&& after.settings == s.settings
            &&& after.window_open == s.window_open
            &&& after.needs_taskbar_show == s.needs_taskbar_show
            &&& after.needs_taskbar_hide == s.needs_taskbar_hide
        }),
{
}

/// Any other process is passed over, and a fault of the tracing is logged and nothing more.
pub proof fn law_other_reports(
    s: AppModel,
    name: Seq<char>,
    pre: Option<Seq<DisplayState>>,
    msg: Seq<char>,
)
    ensures
        is_no_game(s, name) ==> {
            &&& process_noted(s, ProcessNote::Started(name, pre)) == s
            &&& process_plan(s, ProcessNote::Started(name, pre)) == HdrPlan::Nothing
            &&& process_noted(s, ProcessNote::Stopped(name)) == s
            &&& process_plan(s, ProcessNote::Stopped(name)) == HdrPlan::Nothing
        },
        process_noted(s, ProcessNote::WmiError(msg)) == (AppModel {
            messages: log_with(s.messages, "[!] "@ + msg),
            ..s
        }),
        process_plan(s, ProcessNote::WmiError(msg)) == HdrPlan::Nothing,
{
    assert(s == AppModel { ..s });
}

/// The manager passes every report of the tracing on as it is and has the window follow.
pub proof fn law_report_reaches_window(s: AppModel, ev: ProcessNote)
    ensures
        next_state(s, Occasion::Process(ev)) == (AppModel {
            needs_tray_refresh: true,
            ..process_noted(s, ev)
        }),
        next_work(s, Occasion::Process(ev)) == (Work {
            action: process_plan(s, ev),
            save_config: false,
            exit: false,
            wake: Wake::Repaint,
        }),
{
}

/// The switch by hand turns HDR off where it is meant to be on, and on where it is not, on the
/// displays and in the state. Off holds against games that run; on needs none. The games, what
/// is saved and the settings are left alone. It is the same from the window and from the tray.
pub proof fn law_switch_by_hand(s: AppModel)
    ensures
        ({
            let after = toggled(s);
            &&& s.hdr_on() ==> {
                &&& toggling(s) == HdrPlan::DisableAll
                &&& !after.hdr_manually_on
                &&& after.hdr_override_off == (s.active_count > 0)
                &&& after.messages == log_with(s.messages, "[-] HDR disabled manually."@)
            }
            &&& !s.hdr_on() ==> {
                &&& toggling(s) == (HdrPlan::EnableAll { save: false })
                &&& after.hdr_manually_on
                &&& !after.hdr_override_off
                &&& after.messages == log_with(s.messages, "[+] HDR enabled manually."@)
            }
            &&& after.hdr_on() == !s.hdr_on()
            &&& after.needs_tray_refresh
            &&& after.active_count == s.active_count
            &&& after.saved_states == s.saved_states
            &&& after.settings == s.settings
            &&& after.window_open == s.window_open
            &&& after.needs_taskbar_show == s.needs_taskbar_show
            &&& after.needs_taskbar_hide == s.needs_taskbar_hide
            &&& next_state(s, Occasion::Cmd(Command::ToggleHdr)) == after
            &&& next_state(s, Occasion::Menu(MenuChoice::Toggle)) == after
            &&& next_work(s, Occasion::Cmd(Command::ToggleHdr)) == (Work {
                action: toggling(s),
                save_config: false,
                exit: false,
                wake: Wake::Repaint,
            })
            &&& next_work(s, Occasion::Menu(MenuChoice::Toggle)) == next_work(
                s,
                Occasion::Cmd(Command::ToggleHdr),
            )
        }),
{
}

/// The box for restoring takes the value that it is given, the tray turns it over, and both have
/// the settings saved. Nothing else in the settings or the state changes, and no display does.
pub proof fn law_restore_setting(s: AppModel, v: bool)
    ensures
        ({
            let set = Occasion::Cmd(Command::SetRestoreOnExit(v));
            let flip = Occasion::Menu(MenuChoice::FlipRestore);
            &&& next_state(s, set).settings.restore_on_exit == v
            &&& next_state(s, set) == (AppModel {
                settings: Settings { games: s.settings.games, restore_on_exit: v },
                needs_tray_refresh: true,
                ..s
            })
            &&& next_state(s, flip) == (AppModel {
                settings: Settings {
                    games: s.settings.games,
                    restore_on_exit: !s.settings.restore_on_exit,
                },
                needs_tray_refresh: true,
                ..s
            })
            &&& next_work(s, set) == (Work {
                action: HdrPlan::Nothing,
                save_config: true,
                exit: false,
                wake: Wake::Repaint,
            })
            &&& next_work(s, flip) == next_work(s, set)
        }),
{
}

/// A game that is not on the list yet goes to its end, and the list is saved. One that is there
/// under any spelling changes nothing.
pub proof fn law_adding_a_game(s: AppModel, g: Game, i: int)
    ensures
        ({
            let ev = Occasion::Cmd(Command::AddGame(g));
            let after = next_state(s, ev);
            &&& is_no_game(s, g.exe_name) ==> after.settings.games == s.settings.games.push(g)
                && next_work(s, ev).save_config
            &&& is_game(s, i, g.exe_name) ==> after.settings == s.settings && !next_work(
                s,
                ev,
            ).save_config
            &&& after.settings.restore_on_exit == s.settings.restore_on_exit
            &&& after == (AppModel { settings: after.settings, needs_tray_refresh: true, ..s })
            &&& next_work(s, ev).action == HdrPlan::Nothing
            &&& !next_work(s, ev).exit
            &&& next_work(s, ev).wake == Wake::Repaint
        }),
{
}

/// Removing takes exactly the game of that number off the list, which is then saved; a number
/// that no game has changes nothing.
pub proof fn law_removing_a_game(s: AppModel, n: int, k: int)
    ensures
        ({
            let ev = Occasion::Cmd(Command::RemoveGame(n));
            let games = s.settings.games;
            let after = next_state(s, ev);
            let there = 0 <= n < games.len();
            &&& there ==> {
                &&& after.settings.games.len() == games.len() - 1
                &&& 0 <= k < n ==> after.settings.games[k] == games[k]
                &&& n < k < games.len() ==> after.settings.games[k - 1] == games[k]
            }
            &&& !there ==> after.settings == s.settings
            &&& next_work(s, ev).save_config == there
            &&& after.settings.restore_on_exit == s.settings.restore_on_exit
            &&& after == (AppModel { settings: after.settings, needs_tray_refresh: true, ..s })
            &&& next_work(s, ev).action == HdrPlan::Nothing
            &&& !next_work(s, ev).exit
            &&& next_work(s, ev).wake == Wake::Repaint
        }),
{
}

/// Leaving, from the tray or by command, ends the program. It brings back what is saved where
/// the settings say so, and touches no display otherwise.
pub proof fn law_leaving(s: AppModel)
    ensures
        ({
            let ev = Occasion::Menu(MenuChoice::Exit);
            let back = s.settings.restore_on_exit && s.saved_states is Some;
            &&& next_work(s, ev).exit
            &&& !next_work(s, ev).save_config
            &&& next_work(s, ev).wake == Wake::Nothing
            &&& back ==> next_plan(s, ev) == HdrPlan::Restore(s.saved_states->0)
            &&& !back ==> next_plan(s, ev) == HdrPlan::Nothing
            &&& next_work(s, ev).action == next_plan(s, ev)
            &&& next_state(s, ev) == (AppModel {
                saved_states: if back {
                    None
                } else {
                    s.saved_states
                },
                ..s
            })
            &&& next_state(s, Occasion::Cmd(Command::Shutdown)) == next_state(s, ev)
            &&& next_work(s, Occasion::Cmd(Command::Shutdown)) == next_work(s, ev)
            &&& released(s) == next_state(s, ev)
            &&& restoring(s) == next_plan(s, ev)
        }),
{
    assert(s == AppModel { saved_states: s.saved_states, ..s });
}

/// A click on the tray icon opens a closed window and closes an open one, the menu opens it, and
/// a choice that is not known does nothing. No display and no setting changes.
pub proof fn law_window_opens_and_closes(s: AppModel)
    ensures
        ({
            let click = Occasion::TrayLeft;
            let open = Occasion::Menu(MenuChoice::Open);
            let unknown = Occasion::Menu(MenuChoice::Unknown);
            let opened = AppModel {
                window_open: true,
                needs_tray_refresh: true,
                needs_taskbar_show: true,
                ..s
            };
            let quiet = Work {
                action: HdrPlan::Nothing,
                save_config: false,
                exit: false,
                wake: Wake::Nothing,
            };
            &&& next_state(s, open) == opened
            &&& next_work(s, open) == (Work { wake: Wake::Show, ..quiet })
            &&& !s.window_open ==> next_state(s, click) == opened && next_work(s, click) == (Work {
                wake: Wake::Show,
                ..quiet
            })
            &&& s.window_open ==> next_state(s, click) == (AppModel {
                window_open: false,
                needs_taskbar_hide: true,
                ..s
            }) && next_work(s, click) == (Work { wake: Wake::Hide, ..quiet })
            &&& next_state(s, unknown) == s
            &&& next_work(s, unknown) == quiet
        }),
{
}

/// What an event or a command says is what the manager goes by, and a menu item stands for what
/// bears its identity.
pub proof fn law_events_mean_what_they_say(ids: MenuIds, ev: ProcessEvent, id: MenuId, cmd: AppCmd)
    ensures
        AppEvent::Process(ev).occasion(ids) == Occasion::Process(ev@),
        AppEvent::TrayLeft.occasion(ids) == Occasion::TrayLeft,
        AppEvent::Cmd(cmd).occasion(ids) == Occasion::Cmd(cmd@),
        cmd matches AppCmd::AddGame(entry) ==> cmd@ == Command::AddGame(
            Game { display_name: entry.display_name@, exe_name: entry.exe_name@ },
        ),
        cmd matches AppCmd::RemoveGame(n) ==> cmd@ == Command::RemoveGame(n as int),
        cmd matches AppCmd::SetRestoreOnExit(v) ==> cmd@ == Command::SetRestoreOnExit(v),
        cmd is ToggleHdr ==> cmd@ == Command::ToggleHdr,
        cmd is Shutdown ==> cmd@ == Command::Shutdown,
        ev matches ProcessEvent::Stopped(name) ==> ev@ == ProcessNote::Stopped(name@),
        ev matches ProcessEvent::WmiError(msg) ==> ev@ == ProcessNote::WmiError(msg@),
        ev matches ProcessEvent::Started(name, Some(found)) ==> ev@ == ProcessNote::Started(
            name@,
            Some(found@),
        ),
        ev matches ProcessEvent::Started(name, None) ==> ev@ == ProcessNote::Started(name@, None),
        ({
            let choice = ids.choice_of(id@);
            let (o, e, r, t) = (
                ids.open_id.0@,
                ids.exit_id.0@,
                ids.restore_id.0@,
                ids.toggle_id.0@,
            );
            &&& AppEvent::Menu(id).occasion(ids) == Occasion::Menu(choice)
            &&& id.0@ == o ==> choice == MenuChoice::Open
            &&& id.0@ == e && e != o ==> choice == MenuChoice::Exit
            &&& id.0@ == r && r != o && r != e ==> choice == MenuChoice::FlipRestore
            &&& id.0@ == t && t != o && t != e && t != r ==> choice == MenuChoice::Toggle
            &&& id.0@ != o && id.0@ != e && id.0@ != r && id.0@ != t ==> choice
                == MenuChoice::Unknown
        }),
{
}

/// The state as the laws speak of it holds every part of the state as it is.
pub proof fn law_state_is_seen_whole(state: AppState)
    ensures
        state@.active_count == state.active_count,
        state@.hdr_manually_on == state.hdr_manually_on,
        state@.hdr_override_off == state.hdr_override_off,
        state@.window_open == state.window_open,
        state@.needs_tray_refresh == state.needs_tray_refresh,
        state@.needs_taskbar_show == state.needs_taskbar_show,
        state@.needs_taskbar_hide == state.needs_taskbar_hide,
        state@.settings.restore_on_exit == state.config.restore_on_exit,
        state@.messages == texts(state.messages@),
        state@.settings.games.len() == state.config.games@.len(),
        forall|i: int|
            0 <= i < state.config.games@.len() ==> (
            #[trigger] state@.settings.games[i]).exe_name == state.config.games@[i].exe_name@
                && state@.settings.games[i].display_name == state.config.games@[i].display_name@,
        state.saved_states is Some <==> state@.saved_states is Some,
        state.saved_states matches Some(v) ==> state@.saved_states == Some(v@),
{
}

/// A program that starts while watched games run says so, counts them, and has HDR enabled with
/// the states found before it kept. Otherwise it starts with nothing to say and nothing to do.
pub proof fn law_start_state(settings: Settings, count: nat)
    ensures
        ({
            let s = initial(settings, count);
            &&& s.settings == settings
            &&& s.active_count == count
            &&& !s.hdr_manually_on && !s.hdr_override_off && s.saved_states is None
            &&& !s.window_open && !s.needs_taskbar_show && !s.needs_taskbar_hide
            &&& s.needs_tray_refresh == (count > 0)
            &&& count > 0 ==> s.messages == seq!["HDR enabled (watched game already running)."@]
            &&& count == 0 ==> s.messages.len() == 0
            &&& count > 0 ==> initial_plan(count) == (HdrPlan::EnableAll { save: true })
            &&& count == 0 ==> initial_plan(count) == HdrPlan::Nothing
        }),
{
}

/// A watched game among the processes that the machine lists at the start is counted, and HDR is
/// enabled for it with the states found before it kept.
pub proof fn law_start_notices_games(
    settings: Settings,
    processes: Seq<Seq<char>>,
    i: int,
    k: int,
)
    requires
        0 <= i < settings.games.len(),
        0 <= k < processes.len(),
        same_ignoring_case(processes[k], settings.games[i].exe_name),
    ensures
        ({
            let count = running(settings.games, processes);
            &&& initial(settings, count).active_count > 0
            &&& initial(settings, count).hdr_on()
            &&& initial_plan(count) == (HdrPlan::EnableAll { save: true })
        }),
{
    law_running_game_is_noticed(settings.games, processes, i, k);
}

/// Carrying out: enabling and disabling ask every capable display there is, restoring asks every
/// display that is kept, and only enabling with `save` keeps what was found.
pub proof fn law_carrying_out(s: AppModel, found: Seq<DisplayState>, kept: Seq<DisplayState>, i: int)
    ensures
        plan_requests(HdrPlan::Nothing, found).len() == 0,
        plan_requests(HdrPlan::EnableAll { save: true }, found) == switch_requests(found, true),
        plan_requests(HdrPlan::EnableAll { save: false }, found) == switch_requests(found, true),
        plan_requests(HdrPlan::DisableAll, found) == switch_requests(found, false),
        plan_requests(HdrPlan::Restore(kept), found).len() == kept.len(),
        0 <= i < kept.len() ==> plan_requests(HdrPlan::Restore(kept), found)[i] == request(
            kept[i],
            kept[i].hdr_enabled,
        ),
        completed(s, HdrPlan::EnableAll { save: true }, found) == (AppModel {
            saved_states: Some(found),
            ..s
        }),
        completed(s, HdrPlan::EnableAll { save: false }, found) == s,
        completed(s, HdrPlan::DisableAll, found) == s,
        completed(s, HdrPlan::Restore(kept), found) == s,
        completed(s, HdrPlan::Nothing, found) == s,
{
}

/// The displays change for four reasons only: the user switches by hand, the first watched game
/// starts while nothing holds HDR on or off, the last one stops with states to bring back, or the
/// program ends with states to bring back.
pub proof fn law_displays_change_for_a_reason(c: Scene, ev: Occasion)
    requires
        ev != Occasion::Cmd(Command::ToggleHdr),
        ev != Occasion::Menu(MenuChoice::Toggle),
        ev matches Occasion::Process(ProcessNote::Started(name, _)) ==> c.app.active_count > 0
            || c.app.hdr_manually_on || c.app.hdr_override_off || is_no_game(c.app, name),
        ev matches Occasion::Process(ProcessNote::Stopped(name)) ==> c.app.active_count > 1
            || c.app.saved_states is None || !c.app.settings.restore_on_exit || is_no_game(
            c.app,
            name,
        ),
        ev == Occasion::Cmd(Command::Shutdown) || ev == Occasion::Menu(MenuChoice::Exit)
            ==> c.app.saved_states is None || !c.app.settings.restore_on_exit,
    ensures
        scene_after(c, ev).displays == c.displays,
        plan_requests(next_plan(c.app, ev), c.displays).len() == 0,
{
    assert(after_requests(c.displays, Seq::empty()) == c.displays);
}

/// While other games still run, one that stops leaves every display as it was.
pub proof fn law_others_keep_displays(c: Scene, name: Seq<char>)
    requires
        c.app.active_count > 1,
    ensures
        scene_after(c, Occasion::Process(ProcessNote::Stopped(name))).displays == c.displays,
{
}

/// HDR that the user switched off stays off, on every display and in what is shown, whatever
/// games start and stop, until the user switches again, the last game stops or the program ends.
pub proof fn law_forced_off_stays_off(c: Scene, events: Seq<Occasion>)
    requires
        c.app.hdr_override_off,
        forall|k: int|
            0 <= k < events.len() ==> {
                &&& #[trigger] events[k] != Occasion::Cmd(Command::ToggleHdr)
                &&& events[k] != Occasion::Menu(MenuChoice::Toggle)
                &&& events[k] != Occasion::Cmd(Command::Shutdown)
                &&& events[k] != Occasion::Menu(MenuChoice::Exit)
                &&& scene_after_all(c, events.take(k + 1)).app.active_count > 0
            },
    ensures
        scene_after_all(c, events).displays == c.displays,
        scene_after_all(c, events).app.hdr_override_off,
        !scene_after_all(c, events).app.hdr_on(),
    decreases events.len(),
{
    if events.len() > 0 {
        let earlier = events.drop_last();
        assert forall|k: int| 0 <= k < earlier.len() implies {
            &&& #[trigger] earlier[k] != Occasion::Cmd(Command::ToggleHdr)
            &&& earlier[k] != Occasion::Menu(MenuChoice::Toggle)
            &&& earlier[k] != Occasion::Cmd(Command::Shutdown)
            &&& earlier[k] != Occasion::Menu(MenuChoice::Exit)
            &&& scene_after_all(c, earlier.take(k + 1)).app.active_count > 0
        } by {
            assert(earlier[k] == events[k]);
            assert(earlier.take(k + 1) == events.take(k + 1));
        }
        law_forced_off_stays_off(c, earlier);
        let ev = events.last();
        assert(events[events.len() - 1] == ev);
        assert(events.take(events.len() as int) == events);
    }
}

/// The monitor enables HDR by itself exactly for a watched game while none runs and the user
/// holds HDR neither on nor off.
pub proof fn law_monitor_enables(s: AppModel, i: int, name: Seq<char>)
    ensures
        is_game(s, i, name) && s.active_count == 0 && !s.hdr_manually_on && !s.hdr_override_off
            ==> enables_at_once(s, name),
        is_no_game(s, name) || s.active_count > 0 || s.hdr_manually_on || s.hdr_override_off
            ==> !enables_at_once(s, name),
{
}

/// How each fault of the tracing is told.
pub proof fn law_fault_texts(t: Trace)
    ensures
        fault_text(t, Fault::ComInit) == "COM init failed: "@,
        fault_text(t, Fault::Connect) == "WMI connect failed: "@,
        fault_text(Trace::Start, Fault::Subscribe) == "WMI start trace failed (admin required): "@,
        fault_text(Trace::Stop, Fault::Subscribe) == "WMI stop trace failed (admin required): "@,
        fault_text(Trace::Start, Fault::Event) == "Start event error: "@,
        fault_text(Trace::Stop, Fault::Event) == "Stop event error: "@,
{
}

} // verus!
