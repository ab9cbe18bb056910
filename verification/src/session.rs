//! What holds over whole runs: the program, event by event, together with the displays.

use crate::config::{law_add_game, law_remove_game, unique_exes, watches, Settings};
use crate::controls::rows_after;
use crate::hdr::{
    after_requests, all_switched, distinct_displays, law_requests_keep_displays,
    law_restore_recovers, law_switch_reaches_all, same_displays, DisplayState,
};
use crate::manager::{exits, next_plan, next_state, next_work, toggles, Command, Occasion};
use crate::state::{
    completed, initial, initial_plan, log_with, plan_requests, AppModel, HdrPlan, LOG_LIMIT,
};
use crate::text::law_same_ignoring_case_equivalence;
use crate::wmi_monitor::ProcessNote;
use vstd::prelude::*;

verus! {

/// The program together with the displays that it talks to, which take what they are sent.
pub struct Scene {
    pub app: AppModel,
    pub displays: Seq<DisplayState>,
}

/// The scene after an event and all the work on the displays that it calls for.
pub open spec fn scene_after(c: Scene, ev: Occasion) -> Scene {
    let plan = next_plan(c.app, ev);
    Scene {
        app: completed(next_state(c.app, ev), plan, c.displays),
        displays: after_requests(c.displays, plan_requests(plan, c.displays)),
    }
}

/// The scene after a run of events.
pub open spec fn scene_after_all(c: Scene, events: Seq<Occasion>) -> Scene
    decreases events.len(),
{
    if events.len() == 0 {
        c
    } else {
        scene_after(scene_after_all(c, events.drop_last()), events.last())
    }
}

/// HDR is on wherever it can be.
pub open spec fn lit(displays: Seq<DisplayState>) -> bool {
    forall|i: int|
        0 <= i < displays.len() && (#[trigger] displays[i]).hdr_supported
            ==> displays[i].hdr_enabled
}

/// Whether some game runs after each of the first `events.len()` events, and none of these
/// ends the program.
pub open spec fn games_go_on(c: Scene, events: Seq<Occasion>) -> bool {
    forall|k: int|
        0 <= k < events.len() ==> {
            &&& !exits(#[trigger] events[k])
            &&& scene_after_all(c, events.take(k + 1)).app.active_count > 0
        }
}

/// Every event keeps the state consistent: the log within its limit, states saved only while
/// games run, and HDR forced off only while games run and never while forced on.
pub proof fn law_events_keep_consistent(c: Scene, events: Seq<Occasion>)
    requires
        c.app.consistent(),
    ensures
        scene_after_all(c, events).app.consistent(),
    decreases events.len(),
{
    if events.len() > 0 {
        law_events_keep_consistent(c, events.drop_last());
    }
}

/// No event makes two watched games share an exe name.
pub proof fn law_games_stay_distinct(c: Scene, events: Seq<Occasion>)
    requires
        unique_exes(c.app.settings.games),
    ensures
        unique_exes(scene_after_all(c, events).app.settings.games),
    decreases events.len(),
{
    if events.len() > 0 {
        law_games_stay_distinct(c, events.drop_last());
        lemma_event_keeps_unique(scene_after_all(c, events.drop_last()), events.last());
    }
}

/// No event makes the log longer than its limit.
pub proof fn law_log_stays_limited(c: Scene, events: Seq<Occasion>)
    requires
        c.app.messages.len() <= LOG_LIMIT,
    ensures
        scene_after_all(c, events).app.messages.len() <= LOG_LIMIT,
    decreases events.len(),
{
    if events.len() > 0 {
        law_log_stays_limited(c, events.drop_last());
    }
}

proof fn lemma_event_keeps_unique(c: Scene, ev: Occasion)
    requires
        unique_exes(c.app.settings.games),
    ensures
        unique_exes(scene_after(c, ev).app.settings.games),
{
    let games = c.app.settings.games;
    match ev {
        Occasion::Cmd(Command::AddGame(g)) => {
            law_same_ignoring_case_equivalence(g.exe_name, g.exe_name, g.exe_name);
            law_add_game(games, g, g.exe_name);
        },
        Occasion::Cmd(Command::RemoveGame(i)) => {
            if 0 <= i < games.len() {
                law_remove_game(games, i, games[i].exe_name);
            }
        },
        _ => {},
    }
}

/// The manual switch always flips whether HDR is meant to be on, and flips the displays with
/// it: all on or all off, as far as they know HDR.
pub proof fn law_toggle_flips(c: Scene, ev: Occasion)
    requires
        toggles(ev),
        distinct_displays(c.displays),
    ensures
        scene_after(c, ev).app.hdr_on() == !c.app.hdr_on(),
        scene_after(c, ev).displays == all_switched(c.displays, !c.app.hdr_on()),
{
    law_switch_reaches_all(c.displays, !c.app.hdr_on());
}

/// What the program says of HDR is true: if HDR was on wherever it can be whenever the state
/// said so, that holds after every further event, too. A start that comes with display states
/// is one for which the monitor has enabled HDR already.
pub proof fn law_status_is_true(c: Scene, ev: Occasion)
    requires
        distinct_displays(c.displays),
        c.app.consistent(),
        c.app.hdr_on() ==> lit(c.displays),
        !exits(ev),
        ev matches Occasion::Process(ProcessNote::Started(name, Some(_))) ==> c.app.idle()
            && watches(c.app.settings.games, name) ==> lit(c.displays),
    ensures
        scene_after(c, ev).app.hdr_on() ==> lit(scene_after(c, ev).displays),
{
    law_switch_reaches_all(c.displays, true);
}

/// A program that starts while watched games run turns HDR on like the first game would, and
/// says so; otherwise it touches nothing.
pub proof fn law_startup(settings: Settings, count: nat, displays: Seq<DisplayState>)
    requires
        distinct_displays(displays),
    ensures
        ({
            let plan = initial_plan(count);
            let app = completed(initial(settings, count), plan, displays);
            let after = after_requests(displays, plan_requests(plan, displays));
            &&& app.consistent()
            &&& app.hdr_on() == (count > 0)
            &&& count > 0 ==> after == all_switched(displays, true) && lit(after)
                && app.saved_states == Some(displays)
            &&& count == 0 ==> after == displays && app.idle()
        }),
{
    law_switch_reaches_all(displays, true);
}

/// The first watched game turns HDR on wherever it can be and remembers how it was.
pub proof fn law_first_game_enables(c: Scene, name: Seq<char>)
    requires
        c.app.idle(),
        watches(c.app.settings.games, name),
        distinct_displays(c.displays),
    ensures
        ({
            let after = scene_after(c, Occasion::Process(ProcessNote::Started(name, None)));
            &&& after.displays == all_switched(c.displays, true)
            &&& lit(after.displays)
            &&& after.app.saved_states == Some(c.displays)
            &&& after.app.active_count == 1
            &&& after.app.hdr_on()
        }),
{
    law_switch_reaches_all(c.displays, true);
}

/// The same displays as those that are the same as others.
proof fn lemma_same_displays_chain(
    a: Seq<DisplayState>,
    b: Seq<DisplayState>,
    c: Seq<DisplayState>,
)
    requires
        same_displays(a, b),
        same_displays(b, c),
    ensures
        same_displays(a, c),
{
    assert forall|i: int| 0 <= i < a.len() implies {
        &&& (#[trigger] a[i]).adapter_id == c[i].adapter_id
        &&& a[i].target_id == c[i].target_id
        &&& a[i].hdr_supported == c[i].hdr_supported
        &&& !a[i].hdr_supported ==> a[i].hdr_enabled == c[i].hdr_enabled
    } by {
        assert(b[i].adapter_id == c[i].adapter_id);
    }
}

/// An event after which some game still runs touches neither what is saved nor which displays
/// there are.
proof fn lemma_event_keeps_saved(c: Scene, before: Seq<DisplayState>, ev: Occasion)
    requires
        c.app.active_count > 0,
        c.app.saved_states == Some(before),
        same_displays(before, c.displays),
        !exits(ev),
        scene_after(c, ev).app.active_count > 0,
    ensures
        scene_after(c, ev).app.saved_states == Some(before),
        same_displays(before, scene_after(c, ev).displays),
{
    let requests = plan_requests(next_plan(c.app, ev), c.displays);
    law_requests_keep_displays(c.displays, requests);
    lemma_same_displays_chain(before, c.displays, after_requests(c.displays, requests));
}

/// While games go on, what was saved before the first of them stays saved, and the displays
/// stay the same ones.
proof fn lemma_saved_stays(c: Scene, before: Seq<DisplayState>, events: Seq<Occasion>)
    requires
        c.app.active_count > 0,
        c.app.saved_states == Some(before),
        same_displays(before, c.displays),
        games_go_on(c, events),
    ensures
        scene_after_all(c, events).app.active_count > 0,
        scene_after_all(c, events).app.saved_states == Some(before),
        same_displays(before, scene_after_all(c, events).displays),
    decreases events.len(),
{
    if events.len() > 0 {
        let earlier = events.drop_last();
        let ev = events.last();
        assert forall|k: int| 0 <= k < earlier.len() implies {
            &&& !exits(#[trigger] earlier[k])
            &&& scene_after_all(c, earlier.take(k + 1)).app.active_count > 0
        } by {
            assert(earlier[k] == events[k]);
            assert(earlier.take(k + 1) == events.take(k + 1));
        }
        lemma_saved_stays(c, before, earlier);
        let now = scene_after_all(c, earlier);
        assert(events.take(events.len() as int) == events);
        assert(!exits(events[events.len() - 1]));
        assert(scene_after_all(c, events.take(events.len() as int)).app.active_count > 0);
        lemma_event_keeps_saved(now, before, ev);
    }
}

/// The last game brings back, on every display, the state saved before the first one, whatever
/// happened in between: further games, manual switching, changed settings.
pub proof fn law_last_game_restores(
    c: Scene,
    before: Seq<DisplayState>,
    events: Seq<Occasion>,
    name: Seq<char>,
)
    requires
        c.app.active_count > 0,
        c.app.saved_states == Some(before),
        same_displays(before, c.displays),
        distinct_displays(before),
        games_go_on(c, events),
        ({
            let last = scene_after_all(c, events).app;
            &&& last.active_count == 1
            &&& last.settings.restore_on_exit
            &&& watches(last.settings.games, name)
        }),
    ensures
        ({
            let end = scene_after(
                scene_after_all(c, events),
                Occasion::Process(ProcessNote::Stopped(name)),
            );
            &&& end.displays == before
            &&& end.app.idle()
            &&& end.app.saved_states is None
        }),
{
    lemma_saved_stays(c, before, events);
    law_restore_recovers(before, scene_after_all(c, events).displays);
}

/// A whole session: the first watched game starts, anything happens while games run, the last
/// one exits, and every display is as it was before the first start.
pub proof fn law_session_restores(
    c: Scene,
    first: Seq<char>,
    events: Seq<Occasion>,
    name: Seq<char>,
)
    requires
        c.app.idle(),
        watches(c.app.settings.games, first),
        distinct_displays(c.displays),
        ({
            let running = scene_after(c, Occasion::Process(ProcessNote::Started(first, None)));
            let last = scene_after_all(running, events).app;
            &&& games_go_on(running, events)
            &&& last.active_count == 1
            &&& last.settings.restore_on_exit
            &&& watches(last.settings.games, name)
        }),
    ensures
        ({
            let running = scene_after(c, Occasion::Process(ProcessNote::Started(first, None)));
            let end = scene_after(
                scene_after_all(running, events),
                Occasion::Process(ProcessNote::Stopped(name)),
            );
            end.displays == c.displays && end.app.idle()
        }),
{
    let running = scene_after(c, Occasion::Process(ProcessNote::Started(first, None)));
    law_first_game_enables(c, first);
    law_requests_keep_displays(
        c.displays,
        plan_requests(HdrPlan::EnableAll { save: true }, c.displays),
    );
    law_last_game_restores(running, c.displays, events, name);
}

/// The same session where the monitor enabled HDR on its fast path: it found the displays as
/// they were before, and hands these states to the manager.
pub proof fn law_fast_session_restores(
    app: AppModel,
    before: Seq<DisplayState>,
    first: Seq<char>,
    events: Seq<Occasion>,
    name: Seq<char>,
)
    requires
        app.idle(),
        watches(app.settings.games, first),
        distinct_displays(before),
        ({
            let running = scene_after(
                Scene { app, displays: all_switched(before, true) },
                Occasion::Process(ProcessNote::Started(first, Some(before))),
            );
            let last = scene_after_all(running, events).app;
            &&& games_go_on(running, events)
            &&& last.active_count == 1
            &&& last.settings.restore_on_exit
            &&& watches(last.settings.games, name)
        }),
    ensures
        ({
            let running = scene_after(
                Scene { app, displays: all_switched(before, true) },
                Occasion::Process(ProcessNote::Started(first, Some(before))),
            );
            let end = scene_after(
                scene_after_all(running, events),
                Occasion::Process(ProcessNote::Stopped(name)),
            );
            end.displays == before && end.app.idle()
        }),
{
    let running = scene_after(
        Scene { app, displays: all_switched(before, true) },
        Occasion::Process(ProcessNote::Started(first, Some(before))),
    );
    assert(running.displays == all_switched(before, true));
    law_last_game_restores(running, before, events, name);
}

/// Leaving the program brings the saved states back where the settings say so, and touches no
/// display where they do not.
pub proof fn law_exit_restores(c: Scene, ev: Occasion)
    requires
        exits(ev),
    ensures
        c.app.settings.restore_on_exit ==> match c.app.saved_states {
            Some(before) => distinct_displays(before) && same_displays(before, c.displays)
                ==> scene_after(c, ev).displays == before,
            None => scene_after(c, ev).displays == c.displays,
        },
        !c.app.settings.restore_on_exit ==> scene_after(c, ev).displays == c.displays,
{
    if let Some(before) = c.app.saved_states {
        if distinct_displays(before) && same_displays(before, c.displays) {
            law_restore_recovers(before, c.displays);
        }
    }
}

/// Where HDR is not to be restored, the last game leaves the displays alone.
pub proof fn law_left_on(c: Scene, name: Seq<char>)
    requires
        !c.app.settings.restore_on_exit,
    ensures
        scene_after(c, Occasion::Process(ProcessNote::Stopped(name))).displays == c.displays,
{
}

/// A process that is not watched changes nothing but the mark that asks for a repaint.
pub proof fn law_unwatched_ignored(c: Scene, ev: ProcessNote)
    requires
        match ev {
            ProcessNote::Started(name, _) => !watches(c.app.settings.games, name),
            ProcessNote::Stopped(name) => !watches(c.app.settings.games, name),
            ProcessNote::WmiError(_) => false,
        },
    ensures
        scene_after(c, Occasion::Process(ev)).displays == c.displays,
        scene_after(c, Occasion::Process(ev)).app == (AppModel {
            needs_tray_refresh: true,
            ..c.app
        }),
{
}

/// A watched game that starts and stops leaves the count of running games as it was, and so
/// whether HDR is meant to be on.
pub proof fn law_start_stop_balance(c: Scene, name: Seq<char>, pre: Option<Seq<DisplayState>>)
    requires
        watches(c.app.settings.games, name),
        c.app.consistent(),
    ensures
        ({
            let up = scene_after(c, Occasion::Process(ProcessNote::Started(name, pre)));
            let down = scene_after(up, Occasion::Process(ProcessNote::Stopped(name)));
            &&& up.app.active_count == c.app.active_count + 1
            &&& down.app.active_count == c.app.active_count
            &&& down.app.hdr_on() == c.app.hdr_on()
        }),
{
}

/// Clicking the tray icon shows and hides the window in turn.
pub proof fn law_tray_click_alternates(s: AppModel)
    ensures
        next_state(s, Occasion::TrayLeft).window_open == !s.window_open,
{
}

/// Every event that changes the settings has them saved.
pub proof fn law_changes_are_saved(s: AppModel, ev: Occasion)
    ensures
        next_state(s, ev).settings != s.settings ==> next_work(s, ev).save_config,
{
}

/// Any number of messages added one after another.
pub open spec fn log_with_all(log: Seq<Seq<char>>, msgs: Seq<Seq<char>>) -> Seq<Seq<char>>
    decreases msgs.len(),
{
    if msgs.len() == 0 {
        log
    } else {
        log_with(log_with_all(log, msgs.drop_last()), msgs.last())
    }
}

/// The log holds the latest messages, in order, up to its limit.
pub proof fn law_log_keeps_latest(log: Seq<Seq<char>>, msgs: Seq<Seq<char>>)
    requires
        log.len() <= LOG_LIMIT,
    ensures
        ({
            let all = log + msgs;
            log_with_all(log, msgs) == if all.len() <= LOG_LIMIT {
                all
            } else {
                all.skip(all.len() - LOG_LIMIT)
            }
        }),
    decreases msgs.len(),
{
    if msgs.len() == 0 {
        assert(log + msgs == log);
    } else {
        law_log_keeps_latest(log, msgs.drop_last());
        assert(log + msgs == (log + msgs.drop_last()).push(msgs.last()));
    }
}

/// A list that shows some log, and is then updated after any number of further messages, shows
/// exactly the log as it has become.
pub proof fn law_shown_log_is_current(log: Seq<Seq<char>>, msgs: Seq<Seq<char>>)
    requires
        log.len() <= LOG_LIMIT,
    ensures
        rows_after(log, log_with_all(log, msgs)) == log_with_all(log, msgs),
{
    law_log_keeps_latest(log, msgs);
    if log_with_all(log, msgs).len() == log.len() && log.len() < LOG_LIMIT {
        assert(msgs.len() == 0);
    }
}

/// The messages that a run adds to the log.
proof fn lemma_run_logs(c: Scene, events: Seq<Occasion>) -> (msgs: Seq<Seq<char>>)
    ensures
        scene_after_all(c, events).app.messages == log_with_all(c.app.messages, msgs),
    decreases events.len(),
{
    if events.len() == 0 {
        Seq::empty()
    } else {
        let earlier = lemma_run_logs(c, events.drop_last());
        let before = scene_after_all(c, events.drop_last()).app.messages;
        let after = scene_after_all(c, events).app.messages;
        if after == before {
            earlier
        } else {
            let msg = choose|msg: Seq<char>| after == #[trigger] log_with(before, msg);
            assert(earlier.push(msg).drop_last() == earlier);
            earlier.push(msg)
        }
    }
}

/// Every message reaches the window: a list that shows the log of an earlier state of the run
/// shows, once it is updated, exactly the messages of the state there is now.
pub proof fn law_log_shows_every_message(c: Scene, events: Seq<Occasion>)
    requires
        c.app.messages.len() <= LOG_LIMIT,
    ensures
        ({
            let now = scene_after_all(c, events).app.messages;
            rows_after(c.app.messages, now) == now
        }),
{
    let msgs = lemma_run_logs(c, events);
    law_shown_log_is_current(c.app.messages, msgs);
}

} // verus!
