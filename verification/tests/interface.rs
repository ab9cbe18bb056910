use hdrify::config::{Config, GameEntry};
use hdrify::controls::{
    game_rows, status_label, toggle_label, tooltip_label, tray_label, update_controls, LogRows,
};
use hdrify::hdr::{DisplayState, Luid};
use hdrify::icon::{tray_rgba, ICON_SIZE};
use hdrify::layout::{
    build_tray, control_look, create_controls, face_name, picker_controls, surface_colors,
    ControlClass, Font, Surface, TrayRole, BS_AUTOCHECKBOX, BS_GROUPBOX, BS_PUSHBUTTON,
};
use hdrify::manager::{AppCmd, MenuId, MenuIds};
use hdrify::picker::{
    picked_command, picker_command, row_buffer, row_text, selected_row, PickerCommand,
};
use hdrify::state::{AppState, HdrAction, LOG_LIMIT};
use hdrify::wide::to_wide;
use hdrify::window::{
    game_from_file, game_from_path, game_from_process, hdr_steps, on_hdr_message, on_menu, opens_picker, remove_command,
    restore_command, split_command, window_command, WindowAction, WindowCommand, HDR_EXIT,
    HDR_HIDE, HDR_MENU, HDR_PICKER_DONE, HDR_SHOW, HDR_TOGGLE_VIS, HDR_UPDATE, IDC_ADD_FILE,
    IDC_ADD_PROC, IDC_LOG, IDC_REMOVE, IDC_RESTORE, IDC_STATUS, IDC_TOGGLE, WM_HDR,
};

fn state(active_count: usize, manual: bool) -> AppState {
    let games = vec![GameEntry { display_name: "A".to_string(), exe_name: "a.exe".to_string() }];
    let mut s = AppState::starting(Config { games, restore_on_exit: true }, active_count).0;
    s.hdr_manually_on = manual;
    s
}

fn ids() -> MenuIds {
    MenuIds {
        open_id: MenuId("open".to_string()),
        exit_id: MenuId("exit".to_string()),
        restore_id: MenuId("restore".to_string()),
        toggle_id: MenuId("toggle".to_string()),
    }
}

#[test]
fn labels_tell_the_state() {
    let idle = state(0, false);
    assert_eq!(status_label(&idle), "Idle");
    assert_eq!(tray_label(&idle), "- Idle");
    assert_eq!(tooltip_label(&idle), "HDRify: Idle");
    assert_eq!(toggle_label(&idle), "Enable HDR now");
    let playing = state(12, false);
    assert_eq!(status_label(&playing), "HDR active \u{2014} 12 game(s) running");
    assert_eq!(tray_label(&playing), "HDR active (12 game(s))");
    assert_eq!(toggle_label(&playing), "Disable HDR now");
    let manual = state(0, true);
    assert_eq!(status_label(&manual), "HDR active \u{2014} enabled manually");
    assert_eq!(tray_label(&manual), "HDR active (manual)");
    let mut off = state(3, false);
    off.hdr_override_off = true;
    assert_eq!(status_label(&off), "Idle");
}

#[test]
fn controls_follow_the_state() {
    let mut s = state(1, false);
    s.push_msg("second".to_string());
    assert_eq!(game_rows(&s), ["A (a.exe)"]);
    assert!(s.needs_tray_refresh);
    let c = update_controls(&mut s, 0);
    assert!(!s.needs_tray_refresh);
    assert_eq!(c.tray_tooltip, "HDRify: HDR active \u{2014} 1 game(s) running");
    assert_eq!(c.status, "HDR active \u{2014} 1 game(s) running");
    assert_eq!(c.tray_status, "HDR active (1 game(s))");
    assert_eq!(c.toggle, "Disable HDR now");
    assert!(c.restore_checked);
    assert_eq!(c.games, ["A (a.exe)"]);
    let LogRows { rows, top } = c.log.unwrap();
    assert_eq!(rows, ["HDR enabled (watched game already running).", "second"]);
    assert_eq!(top, Some(1));
}

#[test]
fn log_is_refilled_only_when_its_length_changed() {
    let mut s = state(1, false);
    assert!(update_controls(&mut s, 1).log.is_none());
    let mut empty = state(0, false);
    assert!(update_controls(&mut empty, 0).log.is_none());
    let log = update_controls(&mut empty, 4).log.unwrap();
    assert!(log.rows.is_empty());
    assert_eq!(log.top, None);
}

#[test]
fn log_is_always_refilled_at_its_limit() {
    let mut s = state(0, false);
    for n in 0..LOG_LIMIT {
        s.push_msg(format!("{n}"));
    }
    let log = update_controls(&mut s, LOG_LIMIT - 1).log.unwrap();
    assert_eq!(log.rows, s.messages);
    s.push_msg("new".to_string());
    let log = update_controls(&mut s, LOG_LIMIT).log.unwrap();
    assert_eq!(log.rows.len(), 50);
    assert_eq!(log.rows, s.messages);
    assert_eq!(log.rows[0], "1");
    assert_eq!(log.rows[49], "new");
    assert_eq!(log.top, Some(49));
    s.messages.pop();
    assert!(update_controls(&mut s, 49).log.is_none());
}

#[test]
fn command_messages_split() {
    assert_eq!(split_command(0x0300_07d1), (2001, 0x0300));
    assert_eq!(split_command(usize::MAX), (0xffff, 0xffff));
    assert_eq!(window_command(IDC_TOGGLE as usize), WindowCommand::ToggleHdr);
    assert_eq!(window_command(IDC_RESTORE as usize), WindowCommand::ReadRestore);
    assert_eq!(window_command(IDC_REMOVE as usize), WindowCommand::RemoveSelected);
    assert_eq!(window_command(IDC_ADD_PROC as usize), WindowCommand::PickProcess);
    assert_eq!(window_command(IDC_ADD_FILE as usize), WindowCommand::PickFile);
    assert_eq!(window_command(IDC_STATUS as usize), WindowCommand::Ignored);
    assert_eq!(window_command(IDC_TOGGLE as usize + 0x1_0000), WindowCommand::Ignored);
}

#[test]
fn commands_of_the_window() {
    assert!(matches!(restore_command(1), AppCmd::SetRestoreOnExit(true)));
    assert!(matches!(restore_command(0), AppCmd::SetRestoreOnExit(false)));
    assert!(matches!(restore_command(2), AppCmd::SetRestoreOnExit(false)));
    assert!(remove_command(-1).is_none());
    assert!(matches!(remove_command(0), Some(AppCmd::RemoveGame(0))));
    assert!(matches!(remove_command(5), Some(AppCmd::RemoveGame(5))));
    assert!(matches!(remove_command(-2), Some(AppCmd::RemoveGame(i)) if i == usize::MAX - 1));
    assert!(opens_picker(false, false) && opens_picker(true, false));
    assert!(!opens_picker(true, true));
}

#[test]
fn games_from_files_and_processes() {
    let shown = |g: GameEntry| (g.exe_name, g.display_name);
    let pair = |exe: &str, display: &str| (exe.to_string(), display.to_string());
    let file = |name: &str| shown(game_from_file(Some(name.to_string())));
    assert_eq!(file("game.exe"), pair("game.exe", "game"));
    assert_eq!(file("game.v2.exe"), pair("game.v2.exe", "game.v2"));
    assert_eq!(file("game"), pair("game", "game"));
    assert_eq!(file(".exe"), pair(".exe", ".exe"));
    assert_eq!(file("game."), pair("game.", "game"));
    assert_eq!(shown(game_from_file(None)), pair("", ""));
    assert_eq!(shown(game_from_path("/games/dir.d/game.exe")), pair("game.exe", "game"));
    assert_eq!(shown(game_from_path("game.exe")), pair("game.exe", "game"));
    assert_eq!(shown(game_from_path("/games/..")), pair("", ""));
    assert_eq!(shown(game_from_path("")), pair("", ""));
    assert_eq!(shown(game_from_path("..")), pair("", ""));
    assert_eq!(shown(game_from_path("C:/Games/Doom 2/Doom.exe")), pair("Doom.exe", "Doom"));
    assert!(game_from_path("C:\\Games\\Doom.exe").exe_name.ends_with("Doom.exe"));
    for path in ["/a/b.exe", "b.tar.gz", "..b", "/.hidden", "a/b/"] {
        let p = std::path::Path::new(path);
        let g = game_from_path(path);
        assert_eq!(p.file_name().unwrap().to_string_lossy(), g.exe_name);
        assert_eq!(p.file_stem().unwrap().to_string_lossy(), g.display_name);
    }
    let g = game_from_process("Doom.exe".to_string());
    assert_eq!((g.exe_name.as_str(), g.display_name.as_str()), ("Doom.exe", "Doom"));
    let g = game_from_process("Doom.EXE".to_string());
    assert_eq!(g.display_name, "Doom.EXE");
}

#[test]
fn private_messages() {
    let up = vec![WindowAction::Show, WindowAction::Front, WindowAction::Refresh];
    let mut s = state(0, false);
    assert_eq!(WM_HDR, 0x8001);
    assert_eq!(on_hdr_message(&mut s, HDR_TOGGLE_VIS, true).steps, [WindowAction::Hide]);
    assert_eq!(on_hdr_message(&mut s, HDR_TOGGLE_VIS, false).steps, up);
    assert_eq!(on_hdr_message(&mut s, HDR_UPDATE, true).steps, [WindowAction::Refresh]);
    assert_eq!(on_hdr_message(&mut s, HDR_SHOW, true).steps, up);
    assert_eq!(on_hdr_message(&mut s, HDR_HIDE, false).steps, [WindowAction::Hide]);
    assert_eq!(
        on_hdr_message(&mut s, HDR_PICKER_DONE, true).steps,
        [WindowAction::ForgetPicker, WindowAction::Refresh]
    );
    assert_eq!(on_hdr_message(&mut s, HDR_MENU, true).steps, [WindowAction::DrainMenu]);
    assert!(on_hdr_message(&mut s, 7, true).steps.is_empty());
    assert_eq!(hdr_steps(HDR_TOGGLE_VIS, true), [WindowAction::Hide]);
    assert_eq!(hdr_steps(HDR_TOGGLE_VIS, false), up);
}

#[test]
fn exit_message_restores_where_asked() {
    let saved = vec![DisplayState {
        adapter_id: Luid { low_part: 1, high_part: 0 },
        target_id: 2,
        hdr_enabled: false,
        hdr_supported: true,
    }];
    let mut s = state(1, false);
    s.saved_states = Some(saved.clone());
    let work = on_hdr_message(&mut s, HDR_EXIT, true);
    assert_eq!(work.steps, [WindowAction::Destroy]);
    assert!(matches!(work.action, HdrAction::Restore(states) if states == saved));
    assert_eq!(s.saved_states, None);
    s.saved_states = Some(saved.clone());
    s.config.restore_on_exit = false;
    let work = on_hdr_message(&mut s, HDR_EXIT, true);
    assert!(matches!(work.action, HdrAction::Nothing));
    assert_eq!(s.saved_states, Some(saved));
}

#[test]
fn menu_of_the_window() {
    let mut s = state(0, false);
    let id = |n: &str| MenuId(n.to_string());
    let open = on_menu(&mut s, &id("open"), &ids());
    assert_eq!(open.steps, [WindowAction::Show, WindowAction::Front, WindowAction::Refresh]);
    assert!(!open.save_config && open.command.is_none());
    assert_eq!(on_menu(&mut s, &id("exit"), &ids()).steps, [WindowAction::Exit]);
    let flip = on_menu(&mut s, &id("restore"), &ids());
    assert!(flip.save_config && !s.config.restore_on_exit);
    assert_eq!(flip.steps, [WindowAction::Refresh]);
    let toggle = on_menu(&mut s, &id("toggle"), &ids());
    assert!(matches!(toggle.command, Some(AppCmd::ToggleHdr)));
    assert!(toggle.steps.is_empty());
    let other = on_menu(&mut s, &id("other"), &ids());
    assert!(other.steps.is_empty() && other.command.is_none() && !other.save_config);
}

#[test]
fn picker_messages() {
    assert_eq!(picker_command(0x0300_0000 + 2001), PickerCommand::Filter);
    assert_eq!(picker_command(2001), PickerCommand::Ignored);
    assert_eq!(picker_command(2002), PickerCommand::Refresh);
    assert_eq!(picker_command(2003), PickerCommand::Close);
    assert_eq!(picker_command(2004), PickerCommand::Pick);
    assert_eq!(picker_command(0x2_0000 + 2004), PickerCommand::Pick);
    assert_eq!(picker_command(0x1_0000 + 2004), PickerCommand::Ignored);
    assert_eq!(picker_command(0x1_0000_0000 + 2004), PickerCommand::Ignored);
}

#[test]
fn picked_name_is_the_listed_one() {
    assert_eq!(selected_row(-1), None);
    assert_eq!(selected_row(3), Some(3));
    assert_eq!(row_buffer(0), None);
    assert_eq!(row_buffer(-1), None);
    assert_eq!(row_buffer(8), Some(9));
    let listed = to_wide("D\u{fc}m \u{1f3ae}.exe");
    let len = listed.len() as isize - 1;
    let exe = row_text(&listed, len);
    match picked_command(Some(exe)) {
        Some(AppCmd::AddGame(g)) => {
            assert_eq!(g.exe_name, "D\u{fc}m \u{1f3ae}.exe");
            assert_eq!(g.display_name, "D\u{fc}m \u{1f3ae}");
        }
        other => panic!("{other:?}"),
    }
    assert!(picked_command(None).is_none());
}

#[test]
fn buttons_line_up_with_the_boxes() {
    let all = create_controls();
    assert_eq!(all.len(), 11);
    let by_id = |id: i32| all.iter().find(|c| c.id == id).unwrap();
    let group = all.iter().find(|c| c.text == "Game Management").unwrap();
    let (left, middle, right) = (by_id(IDC_REMOVE), by_id(IDC_ADD_PROC), by_id(IDC_ADD_FILE));
    assert_eq!(left.x, group.x);
    assert_eq!(right.x + right.w, group.x + group.w);
    assert_eq!(middle.x - (left.x + left.w), 10);
    assert_eq!(right.x - (middle.x + middle.w), 10);
    assert_eq!(by_id(IDC_LOG).style, 0x00a0_4100);
    assert_eq!(by_id(IDC_STATUS).class, ControlClass::Static);
    assert_eq!(picker_controls().iter().map(|c| c.id).collect::<Vec<_>>(), [0, 2001, 2002, 2003, 2004]);
    assert_eq!(picker_controls()[1].style, 0x0080_0080);
}

#[test]
fn looks_of_controls() {
    let status = control_look(IDC_STATUS, 0, "Idle");
    assert_eq!(status.font, Some(Font { height: -14, weight: 700 }));
    assert!(!status.plain);
    for text in ["HDR Control", "Game Management", "Activity Log"] {
        let look = control_look(0, BS_GROUPBOX, text);
        assert_eq!(look.font, Some(Font { height: -12, weight: 700 }));
        assert!(look.plain);
    }
    let check = control_look(IDC_RESTORE, BS_AUTOCHECKBOX, "Restore HDR when games exit");
    assert!(check.plain && check.font.is_none());
    let button = control_look(IDC_TOGGLE, BS_PUSHBUTTON, "Enable HDR Now");
    assert!(!button.plain && button.font.is_none());
}

#[test]
fn face_name_is_padded() {
    let face = face_name();
    assert_eq!(face.len(), 32);
    assert_eq!(String::from_utf16_lossy(&face[..12]), "MS Shell Dlg");
    assert!(face[12..].iter().all(|u| *u == 0));
}

#[test]
fn dark_colours() {
    assert_eq!(surface_colors(Surface::Static), (0x00ff_ffff, 0x001a_1a1a));
    assert_eq!(surface_colors(Surface::Button), (0x00ff_ffff, 0x001a_1a1a));
    assert_eq!(surface_colors(Surface::ListBox), (0x00ff_ffff, 0x002a_2a2a));
}

#[test]
fn tray_menu_lines() {
    let lines = build_tray(true);
    let roles: Vec<TrayRole> = lines.iter().map(|l| l.role).collect();
    assert_eq!(
        roles,
        [
            TrayRole::Status,
            TrayRole::Separator,
            TrayRole::Restore,
            TrayRole::Toggle,
            TrayRole::Separator,
            TrayRole::Open,
            TrayRole::Exit,
        ]
    );
    assert_eq!(lines[2].checked, Some(true));
    assert_eq!(build_tray(false)[2].checked, Some(false));
    assert!(!lines[0].enabled && lines[3].enabled);
    assert_eq!(lines[5].label, "Open Settings\u{2026}");
}

#[test]
fn icon_shows_a_white_letter_on_blue() {
    let px = tray_rgba();
    assert_eq!(px.len(), (ICON_SIZE * ICON_SIZE * 4) as usize);
    let at = |x: usize, y: usize| &px[(y * 32 + x) * 4..(y * 32 + x) * 4 + 4];
    assert_eq!(at(0, 0), [24, 100, 230, 255]);
    assert_eq!(at(31, 31), [24, 100, 230, 255]);
    for y in 0..32 {
        for x in 0..32 {
            let upright = (8..24).contains(&y) && [9, 10, 21, 22].contains(&x);
            let bar = (9..23).contains(&x) && (y == 15 || y == 16);
            let expected = if upright || bar { [255, 255, 255, 255] } else { [24, 100, 230, 255] };
            assert_eq!(at(x, y), expected);
        }
    }
}
