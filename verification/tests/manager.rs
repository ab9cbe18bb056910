use hdrify::config::{Config, GameEntry};
use hdrify::hdr::{DisplayState, Luid, SetRequest};
use hdrify::manager::{
    do_toggle_hdr, handle_wmi_event, has_room, step, AppCmd, AppEvent, MenuChoice, MenuId, MenuIds,
    Outcome, Wake,
};
use hdrify::state::{AppState, HdrAction, LOG_LIMIT};
use hdrify::wmi_monitor::{
    ends_trace, should_enable, started, stopped, trace_error, Fault, ProcessEvent, Trace,
};

fn game(exe: &str) -> GameEntry {
    GameEntry { display_name: exe.to_string(), exe_name: exe.to_string() }
}

fn idle(restore_on_exit: bool) -> AppState {
    let config = Config { games: vec![game("a.exe"), game("b.exe")], restore_on_exit };
    AppState::starting(config, 0).0
}

fn ids() -> MenuIds {
    MenuIds {
        open_id: MenuId("1".to_string()),
        exit_id: MenuId("2".to_string()),
        restore_id: MenuId("3".to_string()),
        toggle_id: MenuId("4".to_string()),
    }
}

fn menu(id: &str) -> AppEvent {
    AppEvent::Menu(MenuId(id.to_string()))
}

fn start(name: &str) -> AppEvent {
    AppEvent::Process(ProcessEvent::Started(name.to_string(), None))
}

fn stop(name: &str) -> AppEvent {
    AppEvent::Process(ProcessEvent::Stopped(name.to_string()))
}

fn toggle() -> AppEvent {
    AppEvent::Cmd(AppCmd::ToggleHdr)
}

fn panel(n: u32, hdr_supported: bool, hdr_enabled: bool) -> DisplayState {
    DisplayState {
        adapter_id: Luid { low_part: n, high_part: 0 },
        target_id: n,
        hdr_enabled,
        hdr_supported,
    }
}

fn panels() -> Vec<DisplayState> {
    vec![panel(1, true, false), panel(2, true, true), panel(3, false, false)]
}

fn obey(displays: &mut Vec<DisplayState>, requests: &[SetRequest]) {
    for r in requests {
        for d in displays.iter_mut() {
            if d.hdr_supported && d.adapter_id == r.adapter_id && d.target_id == r.target_id {
                d.hdr_enabled = r.value == 1;
            }
        }
    }
}

fn perform(state: &mut AppState, displays: &mut Vec<DisplayState>, action: HdrAction) {
    let found = if action.needs_query() { displays.clone() } else { vec![] };
    let requests = state.complete(action, found);
    obey(displays, &requests);
}

fn play(state: &mut AppState, displays: &mut Vec<DisplayState>, ev: AppEvent) -> (bool, bool, Wake) {
    assert!(has_room(state, &ev));
    let Outcome { action, save_config, exit, wake } = step(state, ev, &ids());
    perform(state, displays, action);
    (save_config, exit, wake)
}

fn lit(displays: &[DisplayState]) -> bool {
    displays.iter().all(|d| d.hdr_enabled || !d.hdr_supported)
}

fn last(state: &AppState) -> &str {
    state.messages.last().map(|s| s.as_str()).unwrap_or("")
}

#[test]
fn quiet_start() {
    let (state, action) = AppState::starting(Config::default(), 0);
    assert!(matches!(action, HdrAction::Nothing));
    assert!(!state.hdr_on());
    assert!(state.messages.is_empty());
    assert!(!state.needs_tray_refresh);
    assert!(!state.window_open);
}

#[test]
fn start_while_games_run() {
    let (mut state, action) = AppState::starting(Config::default(), 2);
    assert!(matches!(action, HdrAction::EnableAll { save: true }));
    assert_eq!(state.messages, ["HDR enabled (watched game already running)."]);
    assert!(state.needs_tray_refresh);
    assert!(state.hdr_on());
    let mut displays = panels();
    perform(&mut state, &mut displays, action);
    assert!(lit(&displays));
    assert_eq!(state.saved_states, Some(panels()));
}

#[test]
fn new_counts_what_runs() {
    let (state, action) = AppState::new(Config::default());
    assert_eq!(state.active_count, 0);
    assert!(matches!(action, HdrAction::Nothing));
}

#[test]
fn session_restores_every_display() {
    let mut state = idle(true);
    let mut displays = panels();
    assert_eq!(play(&mut state, &mut displays, start("A.EXE")), (false, false, Wake::Repaint));
    assert_eq!(last(&state), "[+] HDR enabled -- A.EXE started.");
    assert!(lit(&displays));
    assert!(state.hdr_on());
    play(&mut state, &mut displays, start("b.exe"));
    assert_eq!(last(&state), "[+] b.exe started (HDR already on).");
    play(&mut state, &mut displays, start("other.exe"));
    assert_eq!(state.active_count, 2);
    play(&mut state, &mut displays, stop("a.exe"));
    assert_eq!(last(&state), "[-] a.exe exited (1 game(s) still running).");
    assert!(lit(&displays));
    play(&mut state, &mut displays, stop("b.exe"));
    assert_eq!(last(&state), "[-] HDR restored -- b.exe exited.");
    assert_eq!(displays, panels());
    assert_eq!(state.saved_states, None);
    assert!(!state.hdr_on());
}

#[test]
fn session_with_manual_switching_still_restores() {
    let mut state = idle(true);
    let mut displays = panels();
    play(&mut state, &mut displays, start("a.exe"));
    play(&mut state, &mut displays, toggle());
    assert_eq!(last(&state), "[-] HDR disabled manually.");
    assert!(state.hdr_override_off && !state.hdr_on());
    assert!(displays.iter().all(|d| !d.hdr_enabled));
    play(&mut state, &mut displays, start("b.exe"));
    assert_eq!(last(&state), "[~] Tracking b.exe (HDR manually off).");
    play(&mut state, &mut displays, stop("b.exe"));
    play(&mut state, &mut displays, stop("a.exe"));
    assert_eq!(displays, panels());
    assert!(!state.hdr_override_off);
}

#[test]
fn session_ending_with_hdr_by_hand_restores() {
    let mut state = idle(true);
    let mut displays = panels();
    play(&mut state, &mut displays, start("a.exe"));
    play(&mut state, &mut displays, toggle());
    play(&mut state, &mut displays, toggle());
    assert!(state.hdr_manually_on && lit(&displays));
    let action = handle_wmi_event(stopped("a.exe".to_string()), &mut state);
    assert!(matches!(&action, HdrAction::Restore(v) if *v == panels()));
    let requests = state.complete(action, vec![]);
    let values: Vec<(u32, u32)> = requests.iter().map(|r| (r.target_id, r.value)).collect();
    assert_eq!(values, [(1, 0), (2, 1), (3, 0)]);
    obey(&mut displays, &requests);
    assert_eq!(displays, panels());
    assert_eq!(last(&state), "[-] HDR restored -- a.exe exited.");
    assert_eq!(state.active_count, 0);
    assert_eq!(state.saved_states, None);
    assert!(!state.hdr_on() && !state.hdr_manually_on);
}

#[test]
fn hdr_by_hand_stays_where_nothing_is_restored() {
    let mut state = idle(false);
    let mut displays = panels();
    play(&mut state, &mut displays, start("a.exe"));
    play(&mut state, &mut displays, toggle());
    play(&mut state, &mut displays, toggle());
    let before = state.messages.len();
    play(&mut state, &mut displays, stop("a.exe"));
    assert!(state.hdr_on() && lit(&displays));
    assert_eq!(state.messages.len(), before);
    // Nothing of this session is left for a later one to bring back.
    assert_eq!(state.saved_states, None);
    play(&mut state, &mut displays, menu("3"));
    play(&mut state, &mut displays, start("b.exe"));
    play(&mut state, &mut displays, stop("b.exe"));
    assert!(state.hdr_on() && lit(&displays));
}

#[test]
fn manual_hdr_outlives_the_games() {
    let mut state = idle(true);
    let mut displays = panels();
    play(&mut state, &mut displays, toggle());
    assert_eq!(last(&state), "[+] HDR enabled manually.");
    assert!(lit(&displays));
    assert_eq!(state.saved_states, None);
    play(&mut state, &mut displays, start("a.exe"));
    assert_eq!(last(&state), "[+] a.exe started (HDR already on).");
    let before = state.messages.len();
    play(&mut state, &mut displays, stop("a.exe"));
    assert_eq!(state.messages.len(), before);
    assert!(lit(&displays));
    assert!(state.hdr_on());
    play(&mut state, &mut displays, toggle());
    assert!(!state.hdr_on() && !state.hdr_override_off);
}

#[test]
fn hdr_is_left_on_without_restore() {
    let mut state = idle(false);
    let mut displays = panels();
    play(&mut state, &mut displays, start("a.exe"));
    play(&mut state, &mut displays, stop("a.exe"));
    assert_eq!(last(&state), "[-] a.exe exited (HDR left on).");
    assert!(lit(&displays));
    assert_eq!(state.saved_states, None);
}

#[test]
fn stop_without_start_counts_no_lower_than_zero() {
    let mut state = idle(true);
    let action = handle_wmi_event(ProcessEvent::Stopped("a.exe".to_string()), &mut state);
    assert!(matches!(action, HdrAction::Nothing));
    assert_eq!(state.active_count, 0);
    assert_eq!(last(&state), "[-] HDR restored -- a.exe exited.");
}

#[test]
fn unwatched_processes_change_nothing() {
    let mut state = idle(true);
    let action = handle_wmi_event(ProcessEvent::Started("x.exe".to_string(), None), &mut state);
    assert!(matches!(action, HdrAction::Nothing));
    handle_wmi_event(ProcessEvent::Stopped("x.exe".to_string()), &mut state);
    assert!(state.messages.is_empty());
    assert_eq!(state.active_count, 0);
    assert!(!state.needs_tray_refresh);
}

#[test]
fn fast_path_states_are_kept() {
    let mut state = idle(true);
    assert!(should_enable(&state, "A.exe"));
    assert!(!should_enable(&state, "x.exe"));
    let ev = started("a.exe".to_string(), Some(panels()));
    let action = handle_wmi_event(ev, &mut state);
    assert!(matches!(action, HdrAction::Nothing));
    assert_eq!(state.saved_states, Some(panels()));
    assert_eq!(last(&state), "[+] HDR enabled -- a.exe started.");
    assert!(!should_enable(&state, "b.exe"));
    let action = handle_wmi_event(stopped("a.exe".to_string()), &mut state);
    assert!(matches!(action, HdrAction::Restore(s) if s == panels()));
}

#[test]
fn fast_path_waits_for_the_user() {
    let mut state = idle(true);
    state.hdr_manually_on = true;
    assert!(!should_enable(&state, "a.exe"));
    state.hdr_manually_on = false;
    state.hdr_override_off = true;
    assert!(!should_enable(&state, "a.exe"));
    state.hdr_override_off = false;
    state.active_count = 1;
    assert!(!should_enable(&state, "a.exe"));
}

#[test]
fn trace_faults_are_reported() {
    for (trace, fault, text) in [
        (Trace::Start, Fault::ComInit, "COM init failed: e"),
        (Trace::Stop, Fault::ComInit, "COM init failed: e"),
        (Trace::Start, Fault::Connect, "WMI connect failed: e"),
        (Trace::Stop, Fault::Connect, "WMI connect failed: e"),
        (Trace::Start, Fault::Subscribe, "WMI start trace failed (admin required): e"),
        (Trace::Stop, Fault::Subscribe, "WMI stop trace failed (admin required): e"),
        (Trace::Start, Fault::Event, "Start event error: e"),
        (Trace::Stop, Fault::Event, "Stop event error: e"),
    ] {
        assert!(matches!(trace_error(trace, fault, "e"), ProcessEvent::WmiError(m) if m == text));
    }
    assert!(ends_trace(Fault::ComInit) && ends_trace(Fault::Connect));
    assert!(ends_trace(Fault::Subscribe) && !ends_trace(Fault::Event));
    let mut state = idle(true);
    handle_wmi_event(ProcessEvent::WmiError("oops".to_string()), &mut state);
    assert_eq!(last(&state), "[!] oops");
}

#[test]
fn toggle_flips_and_flips_back() {
    let mut state = idle(true);
    assert!(matches!(do_toggle_hdr(&mut state), HdrAction::EnableAll { save: false }));
    assert!(state.hdr_on());
    assert!(matches!(do_toggle_hdr(&mut state), HdrAction::DisableAll));
    assert!(!state.hdr_on());
    assert!(state.needs_tray_refresh);
}

#[test]
fn log_keeps_the_latest_messages() {
    let mut state = idle(true);
    for n in 0..LOG_LIMIT + 7 {
        state.push_msg(format!("{n}"));
    }
    assert_eq!(state.messages.len(), 50);
    assert_eq!(state.messages[0], "7");
    assert_eq!(last(&state), "56");
}

#[test]
fn commands_on_the_game_list() {
    let mut state = idle(false);
    let mut d = panels();
    let add = |exe: &str| AppEvent::Cmd(AppCmd::AddGame(game(exe)));
    assert_eq!(play(&mut state, &mut d, add("c.exe")), (true, false, Wake::Repaint));
    assert_eq!(play(&mut state, &mut d, add("C.EXE")), (false, false, Wake::Repaint));
    assert_eq!(state.config.games.len(), 3);
    let remove = |i: usize| AppEvent::Cmd(AppCmd::RemoveGame(i));
    assert_eq!(play(&mut state, &mut d, remove(3)), (false, false, Wake::Repaint));
    assert_eq!(play(&mut state, &mut d, remove(0)), (true, false, Wake::Repaint));
    assert_eq!(state.config.games[0].exe_name, "b.exe");
    assert_eq!(state.config.games[1].exe_name, "c.exe");
    let set = AppEvent::Cmd(AppCmd::SetRestoreOnExit(true));
    assert_eq!(play(&mut state, &mut d, set), (true, false, Wake::Repaint));
    assert!(state.config.restore_on_exit);
    assert!(state.needs_tray_refresh);
}

#[test]
fn games_stay_distinct_over_a_run() {
    let mut state = idle(false);
    let mut d = panels();
    for exe in ["c.exe", "A.exe", "C.EXE", "d.exe", "B.EXE"] {
        play(&mut state, &mut d, AppEvent::Cmd(AppCmd::AddGame(game(exe))));
        play(&mut state, &mut d, start(exe));
        play(&mut state, &mut d, AppEvent::Cmd(AppCmd::RemoveGame(3)));
    }
    let exes: Vec<&str> = state.config.games.iter().map(|g| g.exe_name.as_str()).collect();
    assert_eq!(exes, ["a.exe", "b.exe", "c.exe"]);
    assert!(state.messages.len() <= LOG_LIMIT);
}

#[test]
fn tray_clicks_show_and_hide() {
    let mut state = idle(false);
    let mut d = panels();
    assert_eq!(play(&mut state, &mut d, AppEvent::TrayLeft), (false, false, Wake::Show));
    assert!(state.window_open && state.needs_taskbar_show && state.needs_tray_refresh);
    assert!(!state.needs_taskbar_hide);
    assert_eq!(play(&mut state, &mut d, AppEvent::TrayLeft), (false, false, Wake::Hide));
    assert!(!state.window_open && state.needs_taskbar_hide);
}

#[test]
fn menu_choices() {
    assert_eq!(ids().choice(&MenuId("2".to_string())), MenuChoice::Exit);
    let mut state = idle(false);
    let mut d = panels();
    assert_eq!(play(&mut state, &mut d, menu("1")), (false, false, Wake::Show));
    assert_eq!(play(&mut state, &mut d, menu("3")), (true, false, Wake::Repaint));
    assert!(state.config.restore_on_exit);
    assert_eq!(play(&mut state, &mut d, menu("4")), (false, false, Wake::Repaint));
    assert!(state.hdr_on());
    assert_eq!(play(&mut state, &mut d, menu("9")), (false, false, Wake::Nothing));
}

#[test]
fn leaving_restores_where_asked() {
    for ev in [menu("2"), AppEvent::Cmd(AppCmd::Shutdown)] {
        let mut state = idle(true);
        let mut d = panels();
        play(&mut state, &mut d, start("a.exe"));
        assert_eq!(play(&mut state, &mut d, ev), (false, true, Wake::Nothing));
        assert_eq!(d, panels());
        assert_eq!(state.saved_states, None);
    }
    for ev in [menu("2"), AppEvent::Cmd(AppCmd::Shutdown)] {
        let mut state = idle(false);
        let mut d = panels();
        play(&mut state, &mut d, start("a.exe"));
        assert_eq!(play(&mut state, &mut d, ev), (false, true, Wake::Nothing));
        assert!(lit(&d));
    }
}

#[test]
fn the_count_has_an_end() {
    let mut state = idle(true);
    state.active_count = usize::MAX;
    assert!(!has_room(&state, &start("a.exe")));
    assert!(has_room(&state, &start("x.exe")));
    assert!(has_room(&state, &stop("a.exe")));
}
