//! How the windows and the tray menu are laid out.

use crate::picker::{IDC_CLOSE, IDC_FILTER, IDC_PROCESSES, IDC_REFRESH};
use crate::text::{rank, Rank};
use crate::wide::{lemma_narrow_len, to_wide, utf16};
use crate::window::{
    IDC_ADD_FILE, IDC_ADD_PROC, IDC_GAME_LIST, IDC_LOG, IDC_REMOVE, IDC_RESTORE, IDC_STATUS,
    IDC_TOGGLE,
};
use vstd::prelude::*;

verus! {

/// Control styles.
pub const BS_PUSHBUTTON: u32 = 0;

pub const BS_AUTOCHECKBOX: u32 = 3;

pub const BS_GROUPBOX: u32 = 7;

pub const LBS_NOTIFY: u32 = 0x0001;

pub const LBS_NOINTEGRALHEIGHT: u32 = 0x0100;

pub const LBS_NOSEL: u32 = 0x4000;

pub const ES_AUTOHSCROLL: u32 = 0x0080;

pub const WS_VSCROLL: u32 = 0x0020_0000;

pub const WS_BORDER: u32 = 0x0080_0000;

/// The weight of bold type.
pub const FW_BOLD: i32 = 700;

/// Heights of type; negative ones measure the characters, not their cells.
pub const STATUS_FONT_HEIGHT: i32 = -14;

pub const SECTION_FONT_HEIGHT: i32 = -12;

/// Colours as the window system takes them, blue in the highest of the three bytes.
pub const DARK_BG_COLOR: u32 = 0x001A_1A1A;

pub const DARK_PANEL_COLOR: u32 = 0x002A_2A2A;

pub const TEXT_COLOR: u32 = 0x00FF_FFFF;

/// What kind of control it is.
#[derive(Clone, Copy, Debug, PartialEq, Eq, Structural)]
pub enum ControlClass {
    Static,
    Button,
    ListBox,
    Edit,
}

/// One control of a window: its text, its style on top of being a visible child, its place and
/// its identity.
#[derive(Clone, Copy, Debug)]
pub struct ControlSpec {
    pub class: ControlClass,
    pub text: &'static str,
    pub style: u32,
    pub x: i32,
    pub y: i32,
    pub w: i32,
    pub h: i32,
    pub id: i32,
}

pub open spec fn control_spec(
    class: ControlClass,
    text: &'static str,
    style: u32,
    x: i32,
    y: i32,
    w: i32,
    h: i32,
    id: i32,
) -> ControlSpec {
    ControlSpec { class, text, style, x, y, w, h, id }
}

fn control(
    class: ControlClass,
    text: &'static str,
    style: u32,
    x: i32,
    y: i32,
    w: i32,
    h: i32,
    id: i32,
) -> (r: ControlSpec)
    ensures
        r == control_spec(class, text, style, x, y, w, h, id),
{
    ControlSpec { class, text, style, x, y, w, h, id }
}

/// The style of a list that is framed and scrolls, and cuts its last row where it has to.
pub open spec fn list_style(extra: u32) -> u32 {
    extra | LBS_NOINTEGRALHEIGHT | WS_VSCROLL | WS_BORDER
}

/// The controls of the settings window.
pub open spec fn main_layout() -> Seq<ControlSpec> {
    let b = ControlClass::Button;
    seq![
        control_spec(ControlClass::Static, "Idle", 0, 20, 20, 460, 24, IDC_STATUS),
        control_spec(b, "Activity Log", BS_GROUPBOX, 20, 55, 460, 155, 0),
        control_spec(ControlClass::ListBox, "", list_style(LBS_NOSEL), 30, 75, 440, 110, IDC_LOG),
        control_spec(b, "HDR Control", BS_GROUPBOX, 20, 230, 460, 120, 0),
        control_spec(
            b,
            "Restore HDR when games exit",
            BS_AUTOCHECKBOX,
            30,
            255,
            320,
            22,
            IDC_RESTORE,
        ),
        control_spec(b, "Enable HDR Now", BS_PUSHBUTTON, 30, 290, 200, 32, IDC_TOGGLE),
        control_spec(b, "Game Management", BS_GROUPBOX, 20, 370, 460, 145, 0),
        control_spec(
            ControlClass::ListBox,
            "",
            list_style(LBS_NOTIFY),
            30,
            395,
            440,
            100,
            IDC_GAME_LIST,
        ),
        control_spec(b, "Remove Selected", BS_PUSHBUTTON, 20, 525, 120, 32, IDC_REMOVE),
        control_spec(
            b,
            "Add from Running Processes...",
            BS_PUSHBUTTON,
            150,
            525,
            200,
            32,
            IDC_ADD_PROC,
        ),
        control_spec(b, "Add from File...", BS_PUSHBUTTON, 360, 525, 120, 32, IDC_ADD_FILE),
    ]
}

/// The controls of the settings window, in the order in which they are made.
pub fn create_controls() -> (r: Vec<ControlSpec>)
    ensures
        r@ == main_layout(),
{
    let b = ControlClass::Button;
    let log: u32 = LBS_NOSEL | LBS_NOINTEGRALHEIGHT | WS_VSCROLL | WS_BORDER;
    let games: u32 = LBS_NOTIFY | LBS_NOINTEGRALHEIGHT | WS_VSCROLL | WS_BORDER;
    vec![
        control(ControlClass::Static, "Idle", 0, 20, 20, 460, 24, IDC_STATUS),
        control(b, "Activity Log", BS_GROUPBOX, 20, 55, 460, 155, 0),
        control(ControlClass::ListBox, "", log, 30, 75, 440, 110, IDC_LOG),
        control(b, "HDR Control", BS_GROUPBOX, 20, 230, 460, 120, 0),
        control(
            b,
            "Restore HDR when games exit",
            BS_AUTOCHECKBOX,
            30,
            255,
            320,
            22,
            IDC_RESTORE,
        ),
        control(b, "Enable HDR Now", BS_PUSHBUTTON, 30, 290, 200, 32, IDC_TOGGLE),
        control(b, "Game Management", BS_GROUPBOX, 20, 370, 460, 145, 0),
        control(ControlClass::ListBox, "", games, 30, 395, 440, 100, IDC_GAME_LIST),
        control(b, "Remove Selected", BS_PUSHBUTTON, 20, 525, 120, 32, IDC_REMOVE),
        control(
            b,
            "Add from Running Processes...",
            BS_PUSHBUTTON,
            150,
            525,
            200,
            32,
            IDC_ADD_PROC,
        ),
        control(b, "Add from File...", BS_PUSHBUTTON, 360, 525, 120, 32, IDC_ADD_FILE),
    ]
}

/// The controls of the picker.
pub open spec fn picker_layout() -> Seq<ControlSpec> {
    let b = ControlClass::Button;
    seq![
        control_spec(ControlClass::Static, "Filter:", 0, 10, 10, 40, 20, 0),
        control_spec(
            ControlClass::Edit,
            "",
            ES_AUTOHSCROLL | WS_BORDER,
            55,
            8,
            200,
            22,
            IDC_FILTER,
        ),
        control_spec(b, "Refresh", BS_PUSHBUTTON, 262, 8, 55, 22, IDC_REFRESH),
        control_spec(b, "Close", BS_PUSHBUTTON, 322, 8, 46, 22, IDC_CLOSE),
        control_spec(
            ControlClass::ListBox,
            "",
            list_style(LBS_NOTIFY),
            10,
            38,
            352,
            378,
            IDC_PROCESSES,
        ),
    ]
}

/// The controls of the picker, in the order in which they are made.
pub fn picker_controls() -> (r: Vec<ControlSpec>)
    ensures
        r@ == picker_layout(),
{
    let b = ControlClass::Button;
    let list: u32 = LBS_NOTIFY | LBS_NOINTEGRALHEIGHT | WS_VSCROLL | WS_BORDER;
    vec![
        control(ControlClass::Static, "Filter:", 0, 10, 10, 40, 20, 0),
        control(ControlClass::Edit, "", ES_AUTOHSCROLL | WS_BORDER, 55, 8, 200, 22, IDC_FILTER),
        control(b, "Refresh", BS_PUSHBUTTON, 262, 8, 55, 22, IDC_REFRESH),
        control(b, "Close", BS_PUSHBUTTON, 322, 8, 46, 22, IDC_CLOSE),
        control(ControlClass::ListBox, "", list, 10, 38, 352, 378, IDC_PROCESSES),
    ]
}

/// A font other than the system's own.
#[derive(Clone, Copy, Debug, PartialEq, Eq, Structural)]
pub struct Font {
    pub height: i32,
    pub weight: i32,
}

/// How a control departs from the system's look.
#[derive(Clone, Copy, Debug, PartialEq, Eq, Structural)]
pub struct Look {
    /// Visual styles are switched off, so that the control takes the dark colours.
    pub plain: bool,
    /// The font instead of the system's own.
    pub font: Option<Font>,
}

pub open spec fn is_section(text: Seq<char>) -> bool {
    text == "HDR Control"@ || text == "Game Management"@ || text == "Activity Log"@
}

/// How a control looks. The status label is bold and larger, section headers are bold, and
/// boxes are plain.
pub open spec fn look_of(id: i32, style: u32, text: Seq<char>) -> Look {
    Look {
        plain: style == BS_GROUPBOX || style == BS_AUTOCHECKBOX,
        font: if id == IDC_STATUS {
            Some(Font { height: STATUS_FONT_HEIGHT, weight: FW_BOLD })
        } else if is_section(text) {
            Some(Font { height: SECTION_FONT_HEIGHT, weight: FW_BOLD })
        } else {
            None
        },
    }
}

/// How a control looks.
pub fn control_look(id: i32, style: u32, text: &str) -> (r: Look)
    ensures
        r == look_of(id, style, text@),
{
    let font = if id == IDC_STATUS {
        Some(Font { height: STATUS_FONT_HEIGHT, weight: FW_BOLD })
    } else if rank(text, "HDR Control") == Rank::Same || rank(text, "Game Management")
        == Rank::Same || rank(text, "Activity Log") == Rank::Same {
        Some(Font { height: SECTION_FONT_HEIGHT, weight: FW_BOLD })
    } else {
        None
    };
    Look { plain: style == BS_GROUPBOX || style == BS_AUTOCHECKBOX, font }
}

/// How many units the name of a font takes, zeros at its end included.
pub const FACE_UNITS: usize = 32;

/// The name of the font in UTF-16, filled up with zeros.
pub fn face_name() -> (r: Vec<u16>)
    ensures
        r@.len() == FACE_UNITS,
        r@ == utf16("MS Shell Dlg"@) + Seq::new(
            (FACE_UNITS - utf16("MS Shell Dlg"@).len()) as nat,
            |i: int| 0u16,
        ),
{
    let ghost name = utf16("MS Shell Dlg"@);
    proof {
        reveal_strlit("MS Shell Dlg");
        lemma_narrow_len("MS Shell Dlg"@);
    }
    let mut out = to_wide("MS Shell Dlg");
    assert(out@ == name + Seq::new(1, |i: int| 0u16));
    while out.len() < FACE_UNITS
        invariant
            name.len() < out@.len() <= FACE_UNITS,
            out@ == name + Seq::new((out@.len() - name.len()) as nat, |i: int| 0u16),
        decreases FACE_UNITS - out.len(),
    {
        out.push(0);
        assert(out@ == name + Seq::new((out@.len() - name.len()) as nat, |i: int| 0u16));
    }
    out
}

/// What is drawn in the colours of the program.
#[derive(Clone, Copy, Debug, PartialEq, Eq, Structural)]
pub enum Surface {
    Static,
    Button,
    ListBox,
}

/// Text and background colour of a surface: white on dark, lists on a lighter dark.
pub fn surface_colors(surface: Surface) -> (r: (u32, u32))
    ensures
        r.0 == TEXT_COLOR,
        r.1 == if surface == Surface::ListBox {
            DARK_PANEL_COLOR
        } else {
            DARK_BG_COLOR
        },
{
    match surface {
        Surface::ListBox => (TEXT_COLOR, DARK_PANEL_COLOR),
        _ => (TEXT_COLOR, DARK_BG_COLOR),
    }
}

/// What a line of the tray menu is for.
#[derive(Clone, Copy, Debug, PartialEq, Eq, Structural)]
pub enum TrayRole {
    Status,
    Restore,
    Toggle,
    Open,
    Exit,
    Separator,
}

/// One line of the tray menu. `checked` is there for lines with a check mark.
#[derive(Clone, Copy, Debug)]
pub struct TrayLine {
    pub role: TrayRole,
    pub label: &'static str,
    pub enabled: bool,
    pub checked: Option<bool>,
}

pub open spec fn tray_line(
    role: TrayRole,
    label: &'static str,
    enabled: bool,
    checked: Option<bool>,
) -> TrayLine {
    TrayLine { role, label, enabled, checked }
}

fn line(role: TrayRole, label: &'static str, enabled: bool, checked: Option<bool>) -> (r: TrayLine)
    ensures
        r == tray_line(role, label, enabled, checked),
{
    TrayLine { role, label, enabled, checked }
}

/// The tray menu at the start.
pub open spec fn tray_layout(restore_on_exit: bool) -> Seq<TrayLine> {
    seq![
        tray_line(TrayRole::Status, "- Idle", false, None),
        tray_line(TrayRole::Separator, "", false, None),
        tray_line(TrayRole::Restore, "Restore HDR on exit", true, Some(restore_on_exit)),
        tray_line(TrayRole::Toggle, "Enable HDR now", true, None),
        tray_line(TrayRole::Separator, "", false, None),
        tray_line(TrayRole::Open, "Open Settings\u{2026}", true, None),
        tray_line(TrayRole::Exit, "Exit", true, None),
    ]
}

/// The lines of the tray menu, from top to bottom.
pub fn build_tray(restore_on_exit: bool) -> (r: Vec<TrayLine>)
    ensures
        r@ == tray_layout(restore_on_exit),
{
    vec![
        line(TrayRole::Status, "- Idle", false, None),
        line(TrayRole::Separator, "", false, None),
        line(TrayRole::Restore, "Restore HDR on exit", true, Some(restore_on_exit)),
        line(TrayRole::Toggle, "Enable HDR now", true, None),
        line(TrayRole::Separator, "", false, None),
        line(TrayRole::Open, "Open Settings\u{2026}", true, None),
        line(TrayRole::Exit, "Exit", true, None),
    ]
}

/// The controls of the settings window by their identities, each of them once: what they are,
/// what they say, and where they stand.
pub proof fn law_main_layout(i: int, j: int)
    ensures
        ({
            let all = main_layout();
            &&& all.len() == 11
            &&& 0 <= i < all.len() && 0 <= j < all.len() && i != j && all[i].id != 0 ==> all[i].id
                != all[j].id
            &&& 0 <= i < all.len() ==> 20 <= all[i].x && all[i].x + all[i].w <= 480 && 20
                <= all[i].y && all[i].y + all[i].h <= 557 && all[i].w > 0 && all[i].h > 0
            &&& all[0] == control_spec(ControlClass::Static, "Idle", 0, 20, 20, 460, 24, 1001)
            &&& all[1] == control_spec(ControlClass::Button, "Activity Log", 7, 20, 55, 460, 155, 0)
            &&& all[3] == control_spec(ControlClass::Button, "HDR Control", 7, 20, 230, 460, 120, 0)
            &&& all[4].text == "Restore HDR when games exit" && all[4].id == 1003 && all[4].style
                == 3
            &&& all[5].text == "Enable HDR Now" && all[5].id == 1004
            &&& all[6].text == "Game Management" && all[6].style == 7
            &&& all[8].text == "Remove Selected" && all[8].id == 1006
            &&& all[9].text == "Add from Running Processes..." && all[9].id == 1007
            &&& all[10].text == "Add from File..." && all[10].id == 1008
            &&& all[2].class == ControlClass::ListBox && all[2].id == 1002
            &&& all[7].class == ControlClass::ListBox && all[7].id == 1005
            &&& all[8].x == all[6].x
            &&& all[9].x == all[8].x + all[8].w + 10
            &&& all[10].x == all[9].x + all[9].w + 10
            &&& all[10].x + all[10].w == all[6].x + all[6].w
        }),
{
}

/// The lines of the tray menu from top to bottom; only the status cannot be chosen, and the check
/// mark shows the setting.
pub proof fn law_tray_lines(restore: bool)
    ensures
        ({
            let all = tray_layout(restore);
            &&& all.len() == 7
            &&& all[0].role == TrayRole::Status && all[0].label == "- Idle" && !all[0].enabled
            &&& all[1].role == TrayRole::Separator && all[4].role == TrayRole::Separator
            &&& all[2].role == TrayRole::Restore && all[2].label == "Restore HDR on exit"
            &&& all[2].checked == Some(restore) && all[2].enabled
            &&& all[3].role == TrayRole::Toggle && all[3].label == "Enable HDR now"
                && all[3].enabled
            &&& all[5].role == TrayRole::Open && all[5].label == "Open Settings\u{2026}"
                && all[5].enabled
            &&& all[6].role == TrayRole::Exit && all[6].label == "Exit" && all[6].enabled
        }),
{
}

/// The status is bold and larger, section headers are bold, and all other text is the system's;
/// boxes and check boxes are plain.
pub proof fn law_looks(id: i32, style: u32, text: Seq<char>)
    ensures
        ({
            let look = look_of(id, style, text);
            let section = text == "HDR Control"@ || text == "Game Management"@ || text
                == "Activity Log"@;
            &&& look.plain == (style == 7 || style == 3)
            &&& id == 1001 ==> look.font is Some && look.font->0.height == -14
                && look.font->0.weight == 700
            &&& id != 1001 && section ==> look.font is Some && look.font->0.height == -12
                && look.font->0.weight == 700
            &&& id != 1001 && !section ==> look.font is None
        }),
{
}

} // verus!
