//! The popup in which a game is picked from the running processes.

use crate::config::Game;
use crate::manager::{AppCmd, Command};
use crate::text::without_suffix;
use crate::wide::{from_wide, law_wide_round_trip, utf16, utf16_text};
use crate::window::{game_from_process, notification, sender, split_command, BN_CLICKED, LB_ERR};
use vstd::prelude::*;

verus! {

/// Identities of the controls of the picker.
pub const IDC_FILTER: i32 = 2001;

pub const IDC_REFRESH: i32 = 2002;

pub const IDC_CLOSE: i32 = 2003;

pub const IDC_PROCESSES: i32 = 2004;

/// The notification of an edit field whose text changed.
pub const EN_CHANGE: u32 = 0x0300;

/// The notification of a list box that was double-clicked.
pub const LBN_DBLCLK: u32 = 2;

/// What the user asked for in the picker.
#[derive(Clone, Copy, Debug, PartialEq, Eq, Structural)]
pub enum PickerCommand {
    /// The filter changed: show the names that are left under it.
    Filter,
    /// List the processes anew.
    Refresh,
    Close,
    /// Take the selected name.
    Pick,
    Ignored,
}

/// What a command message of the picker asks for. A double click picks, and so does a message
/// that comes with nothing but the list's identity.
pub open spec fn picker_command_of(wparam: usize) -> PickerCommand {
    let note = notification(wparam);
    if sender(wparam) == IDC_FILTER && note == EN_CHANGE {
        PickerCommand::Filter
    } else if sender(wparam) == IDC_REFRESH && note == BN_CLICKED {
        PickerCommand::Refresh
    } else if sender(wparam) == IDC_CLOSE && note == BN_CLICKED {
        PickerCommand::Close
    } else if sender(wparam) == IDC_PROCESSES && (note == LBN_DBLCLK || wparam < 0x10000) {
        PickerCommand::Pick
    } else {
        PickerCommand::Ignored
    }
}

/// What a command message of the picker asks for.
pub fn picker_command(wparam: usize) -> (r: PickerCommand)
    ensures
        r == picker_command_of(wparam),
{
    let (id, note) = split_command(wparam);
    assert((wparam >> 16 == 0) == (wparam < 0x10000)) by (bit_vector);
    if id == IDC_FILTER && note == EN_CHANGE {
        PickerCommand::Filter
    } else if id == IDC_REFRESH && note == BN_CLICKED {
        PickerCommand::Refresh
    } else if id == IDC_CLOSE && note == BN_CLICKED {
        PickerCommand::Close
    } else if id == IDC_PROCESSES && (note == LBN_DBLCLK || (note == 0 && (wparam >> 16) == 0)) {
        PickerCommand::Pick
    } else {
        PickerCommand::Ignored
    }
}

/// The selected row of a list box, where there is one.
pub fn selected_row(selection: isize) -> (r: Option<usize>)
    ensures
        r is None <==> selection == LB_ERR,
        r matches Some(row) ==> row == selection as usize,
{
    if selection == LB_ERR {
        None
    } else {
        Some(selection as usize)
    }
}

/// How many units it takes to read a row of this length with the zero at its end. A row
/// without text is not read.
pub fn row_buffer(len: isize) -> (r: Option<usize>)
    ensures
        r is None <==> len <= 0,
        r matches Some(n) ==> n == len + 1,
{
    if len <= 0 {
        None
    } else {
        Some(len as usize + 1)
    }
}

/// The text of a row that was read into a buffer.
pub fn row_text(buf: &Vec<u16>, len: isize) -> (r: String)
    requires
        0 < len <= buf.len(),
    ensures
        r@ == utf16_text(buf@.take(len as int)),
{
    from_wide(buf, len as usize)
}

/// The command that adds the picked process, where one was picked.
pub fn picked_command(exe: Option<String>) -> (r: Option<AppCmd>)
    ensures
        r is Some <==> exe is Some,
        exe matches Some(name) ==> r->0@ == Command::AddGame(
            Game { exe_name: name@, display_name: without_suffix(name@, ".exe"@) },
        ),
{
    match exe {
        Some(name) => Some(AppCmd::AddGame(game_from_process(name))),
        None => None,
    }
}

/// What is picked is what was listed: a name put into the list comes back unchanged.
pub proof fn law_picked_is_listed(name: Seq<char>)
    ensures
        utf16_text(utf16(name).push(0).take(utf16(name).len() as int)) == name,
{
    assert(utf16(name).push(0).take(utf16(name).len() as int) == utf16(name));
    law_wide_round_trip(name);
}

/// What the controls of the picker ask for: the filter when its text changes, the buttons when
/// they are clicked, the list when it is double-clicked or sends nothing but its identity.
pub proof fn law_picker_commands(wparam: usize, note: int, id: int)
    requires
        0 <= id < 0x10000,
        0 <= note < 0x10000,
        wparam == note * 0x10000 + id,
    ensures
        ({
            let asked = picker_command_of(wparam);
            &&& (asked == PickerCommand::Filter) == (id == 2001 && note == 0x300)
            &&& (asked == PickerCommand::Refresh) == (id == 2002 && note == 0)
            &&& (asked == PickerCommand::Close) == (id == 2003 && note == 0)
            &&& (asked == PickerCommand::Pick) == (id == 2004 && (note == 2 || note == 0))
        }),
{
}

} // verus!
