//! The settings window: what its messages mean and what they lead to.

use crate::config::{opt_text, Game, GameEntry};
use crate::manager::{flipped, with_settings, AppCmd, Command, MenuChoice, MenuId, MenuIds};
use crate::state::{released, restoring, AppModel, AppState, HdrAction, HdrPlan};
use crate::text::{
    behind_last, chars_of, contains_text, ends_with, law_behind_last, lemma_behind_last_joined,
    lemma_ends_with_order, occurs_at, rank, stem, stem_text, strip_suffix, without_suffix, Rank,
};
use vstd::prelude::*;

verus! {

/// The private window message (the first one after `WM_APP`).
pub const WM_HDR: u32 = 0x8001;

/// Re-read the shared state, refresh controls and tray.
pub const HDR_UPDATE: usize = 0;

/// Show the settings window and bring it to the front.
pub const HDR_SHOW: usize = 1;

/// Hide the settings window.
pub const HDR_HIDE: usize = 2;

/// Clean up and quit.
pub const HDR_EXIT: usize = 3;

/// Drain the menu event queue.
pub const HDR_MENU: usize = 4;

/// Toggle the window's visibility (tray left-click).
pub const HDR_TOGGLE_VIS: usize = 5;

/// The picker window closed, refresh the game list.
pub const HDR_PICKER_DONE: usize = 6;

/// Identities of the controls of the settings window.
pub const IDC_STATUS: i32 = 1001;

pub const IDC_LOG: i32 = 1002;

pub const IDC_RESTORE: i32 = 1003;

pub const IDC_TOGGLE: i32 = 1004;

pub const IDC_GAME_LIST: i32 = 1005;

pub const IDC_REMOVE: i32 = 1006;

pub const IDC_ADD_PROC: i32 = 1007;

pub const IDC_ADD_FILE: i32 = 1008;

/// The notification of a button that was clicked.
pub const BN_CLICKED: u32 = 0;

/// The selection of a list box where nothing is selected.
pub const LB_ERR: isize = -1;

/// The control that a command message comes from.
pub open spec fn sender(wparam: usize) -> int {
    wparam as int % 0x10000
}

/// What the control has to say.
pub open spec fn notification(wparam: usize) -> int {
    (wparam as int / 0x10000) % 0x10000
}

/// The sender and the notification of a command message.
pub fn split_command(wparam: usize) -> (r: (i32, u32))
    ensures
        r.0 == sender(wparam),
        r.1 == notification(wparam),
{
    assert(wparam & 0xFFFF == wparam % 0x10000) by (bit_vector);
    assert((wparam >> 16) & 0xFFFF == (wparam / 0x10000) % 0x10000) by (bit_vector);
    ((wparam & 0xFFFF) as i32, ((wparam >> 16) & 0xFFFF) as u32)
}

/// What the user asked for in the settings window.
#[derive(Clone, Copy, Debug, PartialEq, Eq, Structural)]
pub enum WindowCommand {
    /// Switch HDR by hand.
    ToggleHdr,
    /// The restore box was clicked: read its new state.
    ReadRestore,
    /// Remove the selected game.
    RemoveSelected,
    /// Add a game from the running processes.
    PickProcess,
    /// Add a game from a file.
    PickFile,
    Ignored,
}

pub open spec fn command_of(sender: int, notification: int) -> WindowCommand {
    if notification != BN_CLICKED {
        WindowCommand::Ignored
    } else if sender == IDC_TOGGLE {
        WindowCommand::ToggleHdr
    } else if sender == IDC_RESTORE {
        WindowCommand::ReadRestore
    } else if sender == IDC_REMOVE {
        WindowCommand::RemoveSelected
    } else if sender == IDC_ADD_PROC {
        WindowCommand::PickProcess
    } else if sender == IDC_ADD_FILE {
        WindowCommand::PickFile
    } else {
        WindowCommand::Ignored
    }
}

/// What a command message of the settings window asks for.
pub fn window_command(wparam: usize) -> (r: WindowCommand)
    ensures
        r == command_of(sender(wparam), notification(wparam)),
{
    let (id, note) = split_command(wparam);
    if note != BN_CLICKED {
        WindowCommand::Ignored
    } else if id == IDC_TOGGLE {
        WindowCommand::ToggleHdr
    } else if id == IDC_RESTORE {
        WindowCommand::ReadRestore
    } else if id == IDC_REMOVE {
        WindowCommand::RemoveSelected
    } else if id == IDC_ADD_PROC {
        WindowCommand::PickProcess
    } else if id == IDC_ADD_FILE {
        WindowCommand::PickFile
    } else {
        WindowCommand::Ignored
    }
}

/// The command for the new state of the restore box: 1 is checked.
pub fn restore_command(check: isize) -> (r: AppCmd)
    ensures
        r@ == Command::SetRestoreOnExit(check == 1),
{
    AppCmd::SetRestoreOnExit(check == 1)
}

/// The command for the selection of the game list, where something is selected.
pub fn remove_command(selection: isize) -> (r: Option<AppCmd>)
    ensures
        r is None <==> selection == LB_ERR,
        r matches Some(cmd) ==> cmd@ == Command::RemoveGame((selection as usize) as int),
{
    if selection != LB_ERR {
        Some(AppCmd::RemoveGame(selection as usize))
    } else {
        None
    }
}

/// Whether the picker has to be opened; otherwise the open one is brought to the front.
pub fn opens_picker(has_handle: bool, is_window: bool) -> (r: bool)
    ensures
        r == !(has_handle && is_window),
{
    !has_handle || !is_window
}

/// What can end a directory or a drive in a path, on one platform or another.
pub open spec fn is_mark(c: char) -> bool {
    c == '/' || c == '\\' || c == ':'
}

/// What stands behind the last mark of a path.
pub open spec fn tail_text(path: Seq<char>) -> Seq<char> {
    behind_last(path, |c: char| is_mark(c))
}

/// What stands behind the last slash of a path.
pub open spec fn behind_slash(path: Seq<char>) -> Seq<char> {
    behind_last(path, |c: char| c == '/')
}

/// What separates the components of a path on Windows.
pub open spec fn is_separator(c: char) -> bool {
    c == '/' || c == '\\'
}

/// A path that begins with the letter of a drive.
pub open spec fn has_drive(path: Seq<char>) -> bool {
    path.len() >= 2 && path[1] == ':' && ('a' <= path[0] <= 'z' || 'A' <= path[0] <= 'Z')
}

pub open spec fn below_drive(path: Seq<char>) -> Seq<char> {
    if has_drive(path) {
        path.skip(2)
    } else {
        path
    }
}

/// The name that a path ends in on Windows: what stands behind the last separator, or behind the
/// drive where there is none.
pub open spec fn windows_name(path: Seq<char>) -> Seq<char> {
    behind_last(below_drive(path), |c: char| is_separator(c))
}

/// A path that begins with two separators, under which a platform may hold servers and devices
/// or take the rest literally.
pub open spec fn doubled(path: Seq<char>) -> bool {
    path.len() >= 2 && (path[0] == '/' || path[0] == '\\') && (path[1] == '/' || path[1] == '\\')
}

/// A path that ends in the name of something, and neither in a mark nor in a directory that is
/// told by dots.
pub open spec fn ends_in_name(path: Seq<char>) -> bool {
    &&& path.len() > 0
    &&& !is_mark(path.last())
    &&& tail_text(path) != "."@
    &&& tail_text(path) != ".."@
    &&& !doubled(path)
}

/// A path that ends in the directory above.
pub open spec fn ends_above(path: Seq<char>) -> bool {
    path == ".."@ || (ends_with(path, "/.."@) && !doubled(path))
}

/// The last component of a path, from `std::path::Path::file_name`. It is a piece of the path,
/// never an empty one. A path that ends in `..` has none. One that ends in a name has one: it is
/// what stands behind the last separator. A slash separates everywhere; on Windows a backslash
/// does, too, and the drive is a component of its own, and it is not said which platform this
/// is. Nor is it said what comes of paths that end in a mark or in a lone dot, or begin with two
/// separators.
#[verifier::external_body]
fn file_name(path: &str) -> (r: Option<String>)
    ensures
        r matches Some(name) ==> name@.len() > 0 && name@ != ".."@ && contains_text(
            path@,
            name@,
        ),
        ends_above(path@) ==> r is None,
        ends_in_name(path@) ==> r is Some && ends_with(behind_slash(path@), r->0@) && ends_with(
            r->0@,
            tail_text(path@),
        ),
        ends_in_name(path@) ==> r->0@ == behind_slash(path@) || r->0@ == windows_name(path@),
{
    std::path::Path::new(path).file_name().map(|n| n.to_string_lossy().into_owned())
}

/// The game of a chosen file name: shown without its extension.
pub open spec fn file_game(file_name: Option<Seq<char>>) -> Game {
    let exe = match file_name {
        Some(name) => name,
        None => Seq::empty(),
    };
    Game { display_name: stem_text(exe), exe_name: exe }
}

/// The game of a chosen file name. Without a name there is none to show, either.
pub fn game_from_file(file_name: Option<String>) -> (r: GameEntry)
    ensures
        r@ == file_game(opt_text(file_name)),
{
    let exe = match file_name {
        Some(name) => name,
        None => String::new(),
    };
    GameEntry { display_name: stem(exe.as_str()), exe_name: exe }
}

/// What stands behind the last separator; a colon counts as one where `colon` says so.
fn behind_marks(text: &str, colon: bool) -> (r: String)
    ensures
        colon ==> r@ == tail_text(text@),
        !colon ==> r@ == behind_last(text@, |c: char| is_separator(c)),
{
    let chars = chars_of(text);
    let n: usize = chars.len();
    let ghost sort: spec_fn(char) -> bool = if colon {
        |c: char| is_mark(c)
    } else {
        |c: char| is_separator(c)
    };
    let mut i: usize = n;
    while i > 0 && chars[i - 1] != '/' && chars[i - 1] != '\\' && !(colon && chars[i - 1] == ':')
        invariant
            i <= n,
            n == chars.len(),
            chars@ == text@,
            forall|c: char| #[trigger] sort(c) == (is_separator(c) || (colon && c == ':')),
            forall|k: int| i <= k < n ==> !sort(#[trigger] text@[k]),
        decreases i,
    {
        i = i - 1;
    }
    let r = text.substring_char(i, n).to_owned();
    proof {
        let tail = behind_last(text@, sort);
        let at = n - tail.len();
        law_behind_last(text@, sort);
        assert(text@.skip(at) == tail);
        if at < i {
            assert(!sort(tail[i - 1 - at]));
            assert(tail[i - 1 - at] == text@[i - 1]);
        }
        if i < at {
            assert(!sort(text@[at - 1]));
        }
        assert(text@.subrange(i as int, n as int) == text@.skip(i as int));
    }
    r
}

/// Whether a path ends in the name of something.
fn named(path: &str) -> (r: bool)
    ensures
        r == ends_in_name(path@),
{
    let chars = chars_of(path);
    let n: usize = chars.len();
    if n == 0 || chars[n - 1] == '/' || chars[n - 1] == '\\' || chars[n - 1] == ':' {
        return false;
    }
    if n >= 2 && (chars[0] == '/' || chars[0] == '\\') && (chars[1] == '/' || chars[1] == '\\') {
        return false;
    }
    let tail = behind_marks(path, true);
    rank(tail.as_str(), ".") != Rank::Same && rank(tail.as_str(), "..") != Rank::Same
}

/// A name without the drive and the directories that a platform other than Windows leaves in it.
fn without_directories(path: &str, name: &str) -> (r: String)
    requires
        ends_in_name(path@),
        name@ == behind_slash(path@) || name@ == windows_name(path@),
    ensures
        r@ == windows_name(path@),
{
    let ghost slash = |c: char| c == '/';
    let ghost separator = |c: char| is_separator(c);
    let ghost p = path@;
    let chars = chars_of(path);
    proof {
        law_behind_last(p, slash);
        law_behind_last(below_drive(p), separator);
    }
    let drive = chars.len() >= 2 && chars[1] == ':' && is_letter(chars[0]);
    if rank(name, path) == Rank::Same && drive {
        let below = path.substring_char(2, chars.len()).to_owned();
        assert(below@ == below_drive(p));
        return behind_marks(below.as_str(), false);
    }
    let r = behind_marks(name, false);
    proof {
        let n = name@;
        if n == windows_name(p) {
            law_behind_last(n, separator);
            let at = n.len() - behind_last(n, separator).len();
            if at > 0 {
                assert(separator(n[at - 1]));
            }
            assert(n.skip(0) == n);
        } else if n == p {
        } else {
            let at = p.len() - n.len();
            assert(p.skip(at) == n);
            if at == 0 {
                assert(p.skip(0) == p);
            }
            assert(p[at - 1] == '/');
            let cut: int = if has_drive(p) { 2 } else { 0 };
            assert(at > cut);
            let before = p.subrange(cut, at);
            assert(below_drive(p) == before + n);
            assert(before.last() == '/');
            lemma_behind_last_joined(before, n, separator);
        }
    }
    r
}

fn is_letter(c: char) -> (r: bool)
    ensures
        r == ('a' <= c <= 'z' || 'A' <= c <= 'Z'),
{
    ('a' <= c && c <= 'z') || ('A' <= c && c <= 'Z')
}

/// The game of a chosen file, without the drive and the directories that the file is in. Paths
/// are read as on Windows, whatever this platform makes of a backslash.
pub fn game_from_path(path: &str) -> (r: GameEntry)
    ensures
        r@ == file_game(Some(r@.exe_name)),
        r@.exe_name != ".."@,
        contains_text(path@, r@.exe_name),
        ends_above(path@) ==> r@.exe_name.len() == 0,
        ends_in_name(path@) ==> {
            &&& r@.exe_name == windows_name(path@)
            &&& r@.exe_name.len() > 0
            &&& ends_with(path@, r@.exe_name)
            &&& ends_with(behind_slash(path@), r@.exe_name)
            &&& ends_with(r@.exe_name, tail_text(path@))
            &&& behind_slash(path@) == tail_text(path@) ==> r@.exe_name == tail_text(path@)
        },
{
    let name = file_name(path);
    proof {
        reveal_strlit("..");
        assert(path@.subrange(0, 0) == Seq::<char>::empty());
        assert(occurs_at(path@, Seq::empty(), 0));
    }
    if named(path) {
        if let Some(found) = name {
            let exe = without_directories(path, found.as_str());
            proof {
                lemma_windows_name(path@);
                lemma_ends_with_order(behind_slash(path@), exe@, tail_text(path@));
            }
            return game_from_file(Some(exe));
        }
    }
    game_from_file(name)
}

/// Where the name stands that a path ends in.
proof fn lemma_windows_name(path: Seq<char>)
    requires
        ends_in_name(path),
    ensures
        ({
            let exe = windows_name(path);
            &&& exe.len() > 0
            &&& exe != ".."@
            &&& contains_text(path, exe)
            &&& ends_with(path, exe)
            &&& ends_with(behind_slash(path), exe)
            &&& ends_with(exe, tail_text(path))
            &&& !ends_above(path)
        }),
{
    let slash = |c: char| c == '/';
    let separator = |c: char| is_separator(c);
    let mark = |c: char| is_mark(c);
    let below = below_drive(path);
    let exe = windows_name(path);
    let wide = behind_slash(path);
    let tail = tail_text(path);
    law_behind_last(path, slash);
    law_behind_last(path, mark);
    law_behind_last(below, separator);
    assert(below.last() == path.last());
    let at = path.len() - exe.len();
    assert(below.skip(below.len() - exe.len()) == exe);
    assert(path.skip(at) == exe);
    assert(path.subrange(at, at + exe.len()) == exe);
    assert(occurs_at(path, exe, at));
    assert(exe.len() > 0);
    let from_slash = path.len() - wide.len();
    let from_mark = path.len() - tail.len();
    assert(path.skip(from_slash) == wide);
    assert(path.skip(from_mark) == tail);
    if at < from_slash {
        assert(exe[from_slash - 1 - at] == path[from_slash - 1]);
    }
    assert(wide.skip(at - from_slash) == exe);
    if from_mark < at {
        assert(tail[at - 1 - from_mark] == path[at - 1]);
        assert(mark(path[at - 1]));
    }
    assert(exe.skip(from_mark - at) == tail);
    reveal_strlit("..");
    reveal_strlit("/..");
    if exe == ".."@ {
        if from_mark > at {
            assert(exe[from_mark - 1 - at] == path[from_mark - 1]);
        }
        assert(from_mark == at);
        assert(exe.skip(0) == exe);
    }
    if ends_with(path, "/.."@) {
        let k = path.len() - 3;
        assert(path.skip(k)[0] == '/' && path.skip(k)[1] == '.' && path.skip(k)[2] == '.');
        if from_mark <= k {
            assert(tail[k - from_mark] == path[k]);
        } else if from_mark > k + 1 {
            assert(mark(path[from_mark - 1]));
        }
        assert(tail == ".."@);
    }
    if path == ".."@ {
        if from_mark > 0 {
            assert(mark(path[from_mark - 1]));
        }
        assert(path.skip(0) == path);
    }
}

/// The exe name of a chosen file is what is left of its path without drive and directories: it
/// holds no separator, the path ends in it, and before it stands a separator, or a drive, or
/// nothing.
pub proof fn law_name_without_directories(path: Seq<char>)
    requires
        ends_in_name(path),
    ensures
        ({
            let exe = windows_name(path);
            let dirs = path.take(path.len() - exe.len());
            &&& path == dirs + exe
            &&& exe.len() > 0
            &&& !exe.contains('/')
            &&& !exe.contains('\\')
            &&& dirs.len() == 0 || dirs.last() == '/' || dirs.last() == '\\' || (dirs.len() == 2
                && has_drive(path))
            &&& has_drive(path) ==> dirs.len() >= 2
        }),
{
    let separator = |c: char| is_separator(c);
    let below = below_drive(path);
    let exe = windows_name(path);
    lemma_windows_name(path);
    law_behind_last(below, separator);
    let at = path.len() - exe.len();
    assert(path.skip(at) == exe);
    assert(path == path.take(at) + path.skip(at));
    let k = below.len() - exe.len();
    if k > 0 {
        assert(separator(below[k - 1]));
        assert(below[k - 1] == path[at - 1]);
    }
}

/// Where no backslash and no colon is in the path, what stands behind the last slash is what
/// stands behind the last mark.
pub proof fn law_slashes_alone_decide(path: Seq<char>)
    requires
        !path.contains('\\'),
        !path.contains(':'),
    ensures
        behind_slash(path) == tail_text(path),
    decreases path.len(),
{
    if path.len() > 0 {
        assert(path.contains(path.last()));
        let rest = path.drop_last();
        assert forall|c: char| #[trigger] rest.contains(c) implies path.contains(c) by {
            let i = choose|i: int| 0 <= i < rest.len() && rest[i] == c;
            assert(path[i] == c);
        }
        law_slashes_alone_decide(rest);
    }
}

/// The game of a chosen process: its name, shown without ".exe".
pub fn game_from_process(exe: String) -> (r: GameEntry)
    ensures
        r@.exe_name == exe@,
        r@.display_name == without_suffix(exe@, ".exe"@),
{
    let display = strip_suffix(exe.as_str(), ".exe");
    GameEntry { display_name: display, exe_name: exe }
}

/// One thing to do to the settings window.
#[derive(Clone, Copy, Debug, PartialEq, Eq, Structural)]
pub enum WindowAction {
    Show,
    /// Bring to the front.
    Front,
    Hide,
    /// Read the state anew into the controls and the tray.
    Refresh,
    /// The picker is gone.
    ForgetPicker,
    /// Take the menu choices out of their queue, one by one.
    DrainMenu,
    /// Clean up and quit, as on an exit message.
    Exit,
    /// End the window, and with it the program.
    Destroy,
}

/// The displays first, then the window.
#[derive(Debug)]
pub struct WindowWork {
    pub action: HdrAction,
    pub steps: Vec<WindowAction>,
}

pub open spec fn bring_up() -> Seq<WindowAction> {
    seq![WindowAction::Show, WindowAction::Front, WindowAction::Refresh]
}

/// What the private message leads to in the window.
pub open spec fn message_steps(wparam: usize, visible: bool) -> Seq<WindowAction> {
    if wparam == HDR_TOGGLE_VIS {
        if visible {
            seq![WindowAction::Hide]
        } else {
            bring_up()
        }
    } else if wparam == HDR_UPDATE {
        seq![WindowAction::Refresh]
    } else if wparam == HDR_SHOW {
        bring_up()
    } else if wparam == HDR_HIDE {
        seq![WindowAction::Hide]
    } else if wparam == HDR_PICKER_DONE {
        seq![WindowAction::ForgetPicker, WindowAction::Refresh]
    } else if wparam == HDR_EXIT {
        seq![WindowAction::Destroy]
    } else if wparam == HDR_MENU {
        seq![WindowAction::DrainMenu]
    } else {
        Seq::empty()
    }
}

fn bring_up_steps() -> (r: Vec<WindowAction>)
    ensures
        r@ == bring_up(),
{
    vec![WindowAction::Show, WindowAction::Front, WindowAction::Refresh]
}

/// What the private message leads to in the window, whatever the state.
pub fn hdr_steps(wparam: usize, visible: bool) -> (r: Vec<WindowAction>)
    ensures
        r@ == message_steps(wparam, visible),
{
    let steps: Vec<WindowAction> = if wparam == HDR_TOGGLE_VIS {
        if visible {
            vec![WindowAction::Hide]
        } else {
            bring_up_steps()
        }
    } else if wparam == HDR_UPDATE {
        vec![WindowAction::Refresh]
    } else if wparam == HDR_SHOW {
        bring_up_steps()
    } else if wparam == HDR_HIDE {
        vec![WindowAction::Hide]
    } else if wparam == HDR_PICKER_DONE {
        vec![WindowAction::ForgetPicker, WindowAction::Refresh]
    } else if wparam == HDR_EXIT {
        vec![WindowAction::Destroy]
    } else if wparam == HDR_MENU {
        vec![WindowAction::DrainMenu]
    } else {
        Vec::new()
    };
    assert(steps@ == message_steps(wparam, visible));
    steps
}

/// The private message. Only the exit touches the state: it takes the saved states to bring
/// them back, where the settings say so.
pub fn on_hdr_message(state: &mut AppState, wparam: usize, visible: bool) -> (r: WindowWork)
    ensures
        final(state)@ == if wparam == HDR_EXIT {
            released(old(state)@)
        } else {
            old(state)@
        },
        r.action@ == if wparam == HDR_EXIT {
            restoring(old(state)@)
        } else {
            HdrPlan::Nothing
        },
        r.steps@ == message_steps(wparam, visible),
{
    let action = if wparam == HDR_EXIT {
        state.leave()
    } else {
        HdrAction::Nothing
    };
    WindowWork { action, steps: hdr_steps(wparam, visible) }
}

/// What a menu choice calls for: the settings file first, then the window, then the manager.
#[derive(Debug)]
pub struct MenuWork {
    pub save_config: bool,
    pub steps: Vec<WindowAction>,
    pub command: Option<AppCmd>,
}

/// The state after a menu choice that the window takes.
pub open spec fn chosen(s: AppModel, choice: MenuChoice) -> AppModel {
    if choice == MenuChoice::FlipRestore {
        with_settings(s, flipped(s.settings))
    } else {
        s
    }
}

/// What a menu choice leads to in the window.
pub open spec fn choice_steps(choice: MenuChoice) -> Seq<WindowAction> {
    match choice {
        MenuChoice::Open => bring_up(),
        MenuChoice::Exit => seq![WindowAction::Exit],
        MenuChoice::FlipRestore => seq![WindowAction::Refresh],
        _ => Seq::empty(),
    }
}

/// A choice in the tray menu.
pub fn on_menu(state: &mut AppState, id: &MenuId, ids: &MenuIds) -> (r: MenuWork)
    ensures
        final(state)@ == chosen(old(state)@, ids.choice_of(id@)),
        r.save_config == (ids.choice_of(id@) == MenuChoice::FlipRestore),
        r.steps@ == choice_steps(ids.choice_of(id@)),
        r.command is Some <==> ids.choice_of(id@) == MenuChoice::Toggle,
        r.command matches Some(cmd) ==> cmd@ == Command::ToggleHdr,
{
    let mut work = MenuWork { save_config: false, steps: Vec::new(), command: None };
    match ids.choice(id) {
        MenuChoice::Open => {
            work.steps = bring_up_steps();
        },
        MenuChoice::Exit => {
            work.steps = vec![WindowAction::Exit];
        },
        MenuChoice::FlipRestore => {
            state.config.restore_on_exit = !state.config.restore_on_exit;
            work.save_config = true;
            work.steps = vec![WindowAction::Refresh];
        },
        MenuChoice::Toggle => {
            work.command = Some(AppCmd::ToggleHdr);
        },
        MenuChoice::Unknown => {},
    }
    assert(work.steps@ == choice_steps(ids.choice_of(id@)));
    work
}

/// A click on the tray icon shows a hidden window and hides a visible one.
pub proof fn law_click_flips_visibility(visible: bool)
    ensures
        message_steps(HDR_TOGGLE_VIS, visible).contains(WindowAction::Show) == !visible,
        message_steps(HDR_TOGGLE_VIS, visible).contains(WindowAction::Hide) == visible,
{
    assert(message_steps(HDR_TOGGLE_VIS, true)[0] == WindowAction::Hide);
    assert(message_steps(HDR_TOGGLE_VIS, false)[0] == WindowAction::Show);
}

/// A command message holds the control in its lowest 16 bits and the notification in the next.
pub proof fn law_command_message_parts(id: int, note: int, wparam: usize)
    requires
        0 <= id < 0x10000,
        0 <= note < 0x10000,
        wparam == note * 0x10000 + id,
    ensures
        sender(wparam) == id,
        notification(wparam) == note,
{
}

/// Each button of the settings window asks for its own, and only when it is clicked.
pub proof fn law_window_commands(id: int, note: int)
    ensures
        note != 0 ==> command_of(id, note) == WindowCommand::Ignored,
        command_of(1004, 0) == WindowCommand::ToggleHdr,
        command_of(1003, 0) == WindowCommand::ReadRestore,
        command_of(1006, 0) == WindowCommand::RemoveSelected,
        command_of(1007, 0) == WindowCommand::PickProcess,
        command_of(1008, 0) == WindowCommand::PickFile,
        id != 1003 && id != 1004 && !(1006 <= id <= 1008) ==> command_of(id, note)
            == WindowCommand::Ignored,
{
}

/// What each private message does to the window.
pub proof fn law_private_messages(wparam: usize, visible: bool)
    ensures
        ({
            let up = seq![WindowAction::Show, WindowAction::Front, WindowAction::Refresh];
            &&& message_steps(0, visible) == seq![WindowAction::Refresh]
            &&& message_steps(1, visible) == up
            &&& message_steps(2, visible) == seq![WindowAction::Hide]
            &&& message_steps(3, visible) == seq![WindowAction::Destroy]
            &&& message_steps(4, visible) == seq![WindowAction::DrainMenu]
            &&& message_steps(5, true) == seq![WindowAction::Hide]
            &&& message_steps(5, false) == up
            &&& message_steps(6, visible) == seq![WindowAction::ForgetPicker, WindowAction::Refresh]
            &&& wparam > 6 ==> message_steps(wparam, visible).len() == 0
        }),
{
}

/// What each choice in the tray menu does to the window and to the state.
pub proof fn law_menu_choices(s: AppModel)
    ensures
        choice_steps(MenuChoice::Open) == seq![
            WindowAction::Show,
            WindowAction::Front,
            WindowAction::Refresh,
        ],
        choice_steps(MenuChoice::Exit) == seq![WindowAction::Exit],
        choice_steps(MenuChoice::FlipRestore) == seq![WindowAction::Refresh],
        choice_steps(MenuChoice::Toggle).len() == 0,
        choice_steps(MenuChoice::Unknown).len() == 0,
        chosen(s, MenuChoice::Open) == s,
        chosen(s, MenuChoice::Exit) == s,
        chosen(s, MenuChoice::Toggle) == s,
        chosen(s, MenuChoice::Unknown) == s,
        ({
            let after = chosen(s, MenuChoice::FlipRestore);
            &&& after.settings.restore_on_exit == !s.settings.restore_on_exit
            &&& after.settings.games == s.settings.games
            &&& after == (AppModel { settings: after.settings, ..s })
        }),
{
}

/// A chosen file is watched under its whole name and shown under its stem.
pub proof fn law_file_is_watched_by_name(name: Seq<char>)
    ensures
        file_game(Some(name)).exe_name == name,
        file_game(Some(name)).display_name == stem_text(name),
        file_game(None).exe_name.len() == 0,
        file_game(None).display_name.len() == 0,
{
}

} // verus!
