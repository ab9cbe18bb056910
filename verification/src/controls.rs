//! What the settings window and the tray show of the state.

use crate::config::{texts, Game};
use crate::seqs::{lemma_map_push, lemma_take_push};
use crate::state::{AppModel, AppState, LOG_LIMIT};
use crate::text::{decimal, decimal_text, joined};
use vstd::prelude::*;

verus! {

/// The label at the top of the settings window.
pub open spec fn status_text(s: AppModel) -> Seq<char> {
    if !s.hdr_on() {
        "Idle"@
    } else if s.active_count > 0 {
        "HDR active \u{2014} "@ + decimal_text(s.active_count) + " game(s) running"@
    } else {
        "HDR active \u{2014} enabled manually"@
    }
}

/// The first line of the tray menu.
pub open spec fn tray_text(s: AppModel) -> Seq<char> {
    if !s.hdr_on() {
        "- Idle"@
    } else if s.active_count > 0 {
        "HDR active ("@ + decimal_text(s.active_count) + " game(s))"@
    } else {
        "HDR active (manual)"@
    }
}

/// What the tray icon says when the pointer rests on it.
pub open spec fn tooltip_text(s: AppModel) -> Seq<char> {
    "HDRify: "@ + status_text(s)
}

/// The name of the manual switch: what pressing it will do.
pub open spec fn toggle_text(s: AppModel) -> Seq<char> {
    if s.hdr_on() {
        "Disable HDR now"@
    } else {
        "Enable HDR now"@
    }
}

/// A line of the game list.
pub open spec fn game_text(g: Game) -> Seq<char> {
    g.display_name + " ("@ + g.exe_name + ")"@
}

/// The last line of so many, where there is one.
pub open spec fn last_row(count: nat) -> Option<usize> {
    if count == 0 {
        None
    } else {
        Some((count - 1) as usize)
    }
}

/// Whether a log list with so many rows is left alone. Below its limit the log only grows, so
/// as many rows as messages are the same ones; at the limit the oldest messages drop out, and
/// the number says nothing.
pub open spec fn keeps_rows(rows: nat, messages: nat) -> bool {
    rows == messages && rows < LOG_LIMIT
}

/// What the log list shows after an update.
pub open spec fn rows_after(rows: Seq<Seq<char>>, messages: Seq<Seq<char>>) -> Seq<Seq<char>> {
    if keeps_rows(rows.len(), messages.len()) {
        rows
    } else {
        messages
    }
}

/// What the activity log is to be filled with, and the line it scrolls to.
#[derive(Debug)]
pub struct LogRows {
    pub rows: Vec<String>,
    pub top: Option<usize>,
}

/// Everything that is shown of the state.
#[derive(Debug)]
pub struct Controls {
    pub status: String,
    pub toggle: String,
    pub restore_checked: bool,
    /// `None` where the log is left as it is.
    pub log: Option<LogRows>,
    pub games: Vec<String>,
    pub tray_status: String,
    pub tray_tooltip: String,
}

/// The label at the top of the settings window.
pub fn status_label(state: &AppState) -> (r: String)
    ensures
        r@ == status_text(state@),
{
    if state.hdr_on() {
        if state.active_count > 0 {
            let count = decimal(state.active_count);
            joined("HDR active \u{2014} ", count.as_str(), " game(s) running")
        } else {
            "HDR active \u{2014} enabled manually".to_owned()
        }
    } else {
        "Idle".to_owned()
    }
}

/// The first line of the tray menu.
pub fn tray_label(state: &AppState) -> (r: String)
    ensures
        r@ == tray_text(state@),
{
    if state.hdr_on() {
        if state.active_count > 0 {
            let count = decimal(state.active_count);
            joined("HDR active (", count.as_str(), " game(s))")
        } else {
            "HDR active (manual)".to_owned()
        }
    } else {
        "- Idle".to_owned()
    }
}

/// What the tray icon says when the pointer rests on it.
pub fn tooltip_label(state: &AppState) -> (r: String)
    ensures
        r@ == tooltip_text(state@),
{
    let mut text = "HDRify: ".to_owned();
    let status = status_label(state);
    text.append(status.as_str());
    text
}

/// The name of the manual switch, in the window and in the tray.
pub fn toggle_label(state: &AppState) -> (r: String)
    ensures
        r@ == toggle_text(state@),
{
    if state.hdr_on() {
        "Disable HDR now".to_owned()
    } else {
        "Enable HDR now".to_owned()
    }
}

/// The lines of the game list.
pub fn game_rows(state: &AppState) -> (r: Vec<String>)
    ensures
        texts(r@) == state@.settings.games.map_values(|g: Game| game_text(g)),
{
    let ghost games = state@.settings.games;
    let ghost f = |g: Game| game_text(g);
    let mut rows: Vec<String> = Vec::new();
    let mut i: usize = 0;
    assert(texts(rows@) == games.take(0).map_values(f));
    while i < state.config.games.len()
        invariant
            i <= state.config.games.len(),
            games == state@.settings.games,
            f == (|g: Game| game_text(g)),
            texts(rows@) == games.take(i as int).map_values(f),
        decreases state.config.games.len() - i,
    {
        let g = &state.config.games[i];
        let head = joined(g.display_name.as_str(), " (", g.exe_name.as_str());
        let mut row = head;
        row.append(")");
        proof {
            assert(row@ == game_text(games[i as int]));
            lemma_map_push(rows@, row, |s: String| s@);
            lemma_take_push(games, i as int);
            lemma_map_push(games.take(i as int), games[i as int], f);
        }
        rows.push(row);
        i = i + 1;
    }
    assert(games.take(games.len() as int) == games);
    rows
}

/// A copy of the activity log.
fn log_copy(state: &AppState) -> (r: Vec<String>)
    ensures
        texts(r@) == state@.messages,
{
    let ghost all = state@.messages;
    let mut rows: Vec<String> = Vec::new();
    let mut i: usize = 0;
    assert(texts(rows@) == all.take(0));
    while i < state.messages.len()
        invariant
            i <= state.messages.len(),
            all == state@.messages,
            texts(rows@) == all.take(i as int),
        decreases state.messages.len() - i,
    {
        let row = state.messages[i].clone();
        proof {
            lemma_map_push(rows@, row, |s: String| s@);
            lemma_take_push(all, i as int);
        }
        rows.push(row);
        i = i + 1;
    }
    assert(all.take(all.len() as int) == all);
    rows
}

/// Reads the state for display, which settles the mark that asks for it. `log_count` is how
/// many lines the log shows already: it is filled anew unless that is the number of messages and
/// below the limit of the log.
pub fn update_controls(state: &mut AppState, log_count: usize) -> (r: Controls)
    ensures
        final(state)@ == (AppModel { needs_tray_refresh: false, ..old(state)@ }),
        r.status@ == status_text(old(state)@),
        r.toggle@ == toggle_text(old(state)@),
        r.restore_checked == old(state)@.settings.restore_on_exit,
        r.log is None <==> keeps_rows(log_count as nat, old(state)@.messages.len()),
        r.log matches Some(log) ==> texts(log.rows@) == old(state)@.messages && log.top
            == last_row(old(state)@.messages.len()),
        texts(r.games@) == old(state)@.settings.games.map_values(|g: Game| game_text(g)),
        r.tray_status@ == tray_text(old(state)@),
        r.tray_tooltip@ == tooltip_text(old(state)@),
{
    let log = if log_count != state.messages.len() || log_count >= LOG_LIMIT {
        let rows = log_copy(state);
        assert(rows@.len() == texts(rows@).len());
        let top: Option<usize> = if rows.len() > 0 {
            Some(rows.len() - 1)
        } else {
            None
        };
        Some(LogRows { rows, top })
    } else {
        None
    };
    state.needs_tray_refresh = false;
    Controls {
        status: status_label(state),
        toggle: toggle_label(state),
        restore_checked: state.config.restore_on_exit,
        log,
        games: game_rows(state),
        tray_status: tray_label(state),
        tray_tooltip: tooltip_label(state),
    }
}

/// The window, the tray and the name of the switch never disagree on whether HDR is on.
pub proof fn law_labels_agree(s: AppModel)
    ensures
        (status_text(s) == "Idle"@) == !s.hdr_on(),
        (tray_text(s) == "- Idle"@) == !s.hdr_on(),
        (tooltip_text(s) == "HDRify: Idle"@) == !s.hdr_on(),
        (toggle_text(s) == "Disable HDR now"@) == s.hdr_on(),
        (toggle_text(s) == "Enable HDR now"@) == !s.hdr_on(),
{
    reveal_strlit("Idle");
    reveal_strlit("- Idle");
    reveal_strlit("HDRify: ");
    reveal_strlit("HDRify: Idle");
    reveal_strlit("HDR active \u{2014} ");
    reveal_strlit("HDR active \u{2014} enabled manually");
    reveal_strlit("HDR active (");
    reveal_strlit("HDR active (manual)");
    reveal_strlit("Disable HDR now");
    reveal_strlit("Enable HDR now");
    assert("Idle"@[0] == 'I' && "- Idle"@[0] == '-');
    assert("Disable HDR now"@[0] == 'D' && "Enable HDR now"@[0] == 'E');
    if s.hdr_on() {
        assert(status_text(s)[0] == 'H');
        assert(tooltip_text(s)[8] == 'H');
        assert("HDRify: Idle"@[8] == 'I');
        assert(tray_text(s)[0] == 'H');
    } else {
        assert(tooltip_text(s) == "HDRify: Idle"@);
    }
}

/// What is shown of each state: whether HDR is on, by what, and for how many games.
pub proof fn law_what_is_shown(s: AppModel, g: Game)
    ensures
        !s.hdr_on() ==> status_text(s) == "Idle"@ && tray_text(s) == "- Idle"@ && toggle_text(s)
            == "Enable HDR now"@,
        s.hdr_on() ==> toggle_text(s) == "Disable HDR now"@,
        s.hdr_on() && s.active_count > 0 ==> status_text(s) == "HDR active \u{2014} "@
            + decimal_text(s.active_count) + " game(s) running"@ && tray_text(s)
            == "HDR active ("@ + decimal_text(s.active_count) + " game(s))"@,
        s.hdr_on() && s.active_count == 0 ==> status_text(s)
            == "HDR active \u{2014} enabled manually"@ && tray_text(s) == "HDR active (manual)"@,
        tooltip_text(s) == "HDRify: "@ + status_text(s),
        game_text(g) == g.display_name + " ("@ + g.exe_name + ")"@,
{
}

/// An update leaves a log list alone that shows the log already, as long as the log has not
/// reached its limit, and fills every other one with the whole log, scrolled to its end.
pub proof fn law_log_list_after_update(rows: Seq<Seq<char>>, messages: Seq<Seq<char>>)
    ensures
        rows.len() != messages.len() ==> !keeps_rows(rows.len(), messages.len()),
        messages.len() >= 50 ==> !keeps_rows(rows.len(), messages.len()),
        rows.len() == messages.len() && messages.len() < 50 ==> keeps_rows(
            rows.len(),
            messages.len(),
        ),
        !keeps_rows(rows.len(), messages.len()) ==> rows_after(rows, messages) == messages,
        keeps_rows(rows.len(), messages.len()) ==> rows_after(rows, messages) == rows,
        messages.len() == 0 ==> last_row(messages.len()) is None,
        0 < messages.len() <= usize::MAX ==> last_row(messages.len()) == Some(
            (messages.len() - 1) as usize,
        ),
{
}

} // verus!
