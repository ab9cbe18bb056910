//! The state that the manager keeps and the user interface reads.

use crate::config::{running, texts, watches, Config, Settings};
use crate::hdr::{
    disable_all, enable_all, restore, restore_requests, switch_requests, DisplayState, SetRequest,
};
use crate::machine::Listing;
use crate::processes::count_running_games;
use crate::seqs::lemma_map_push;
use crate::wmi_monitor::opt_states;
use vstd::prelude::*;

verus! {

/// How many messages the activity log holds.
pub const LOG_LIMIT: usize = 50;

/// State shared between the manager thread and the user interface.
#[derive(Debug)]
pub struct AppState {
    pub config: Config,
    pub messages: Vec<String>,
    pub active_count: usize,
    pub hdr_manually_on: bool,
    /// User explicitly pressed "Disable HDR" while games were running.
    /// Overrides active_count so the UI and toggle stay consistent.
    /// Cleared automatically when all games exit or when the user re-enables.
    pub hdr_override_off: bool,
    pub saved_states: Option<Vec<DisplayState>>,
    pub window_open: bool,
    /// Set by the manager when tray text/tooltip needs refreshing.
    /// Cleared when the state is read for display.
    pub needs_tray_refresh: bool,
    /// Asks for the window to be added to the taskbar (show).
    pub needs_taskbar_show: bool,
    /// Asks for the window to be removed from the taskbar (hide/park).
    pub needs_taskbar_hide: bool,
}

/// The shared state as text, numbers and flags.
#[verifier::ext_equal]
pub struct AppModel {
    pub settings: Settings,
    pub messages: Seq<Seq<char>>,
    pub active_count: nat,
    pub hdr_manually_on: bool,
    pub hdr_override_off: bool,
    pub saved_states: Option<Seq<DisplayState>>,
    pub window_open: bool,
    pub needs_tray_refresh: bool,
    pub needs_taskbar_show: bool,
    pub needs_taskbar_hide: bool,
}

impl View for AppState {
    type V = AppModel;

    open spec fn view(&self) -> AppModel {
        AppModel {
            settings: self.config@,
            messages: texts(self.messages@),
            active_count: self.active_count as nat,
            hdr_manually_on: self.hdr_manually_on,
            hdr_override_off: self.hdr_override_off,
            saved_states: opt_states(self.saved_states),
            window_open: self.window_open,
            needs_tray_refresh: self.needs_tray_refresh,
            needs_taskbar_show: self.needs_taskbar_show,
            needs_taskbar_hide: self.needs_taskbar_hide,
        }
    }
}

/// A log with one more message, which drops its oldest one where it would grow too long.
pub open spec fn log_with(log: Seq<Seq<char>>, msg: Seq<char>) -> Seq<Seq<char>> {
    if log.len() >= LOG_LIMIT {
        log.push(msg).drop_first()
    } else {
        log.push(msg)
    }
}

impl AppModel {
    /// HDR is meant to be on: a game runs or the user asked for it, and did not forbid it.
    pub open spec fn hdr_on(self) -> bool {
        !self.hdr_override_off && (self.active_count > 0 || self.hdr_manually_on)
    }

    /// Nothing holds HDR on or off: the next watched game to start decides.
    pub open spec fn idle(self) -> bool {
        self.active_count == 0 && !self.hdr_manually_on && !self.hdr_override_off
    }

    pub open spec fn logged(self, msg: Seq<char>) -> AppModel {
        AppModel { messages: log_with(self.messages, msg), ..self }
    }

    /// What holds in every state that the manager reaches: the log keeps its limit, states are
    /// saved only while games run, and HDR is forced off only while games run and never while
    /// it is forced on.
    pub open spec fn consistent(self) -> bool {
        &&& self.messages.len() <= LOG_LIMIT
        &&& self.saved_states is Some ==> self.active_count > 0
        &&& self.hdr_override_off ==> self.active_count > 0 && !self.hdr_manually_on
    }
}

/// What has to be done to the displays.
#[derive(Debug)]
pub enum HdrAction {
    Nothing,
    /// Enable HDR wherever it can be; with `save`, remember the states found before.
    EnableAll { save: bool },
    /// Disable HDR wherever it can be.
    DisableAll,
    /// Bring these states back.
    Restore(Vec<DisplayState>),
}

/// What has to be done to the displays, as a value.
pub enum HdrPlan {
    Nothing,
    EnableAll { save: bool },
    DisableAll,
    Restore(Seq<DisplayState>),
}

impl View for HdrAction {
    type V = HdrPlan;

    open spec fn view(&self) -> HdrPlan {
        match self {
            HdrAction::Nothing => HdrPlan::Nothing,
            HdrAction::EnableAll { save } => HdrPlan::EnableAll { save: *save },
            HdrAction::DisableAll => HdrPlan::DisableAll,
            HdrAction::Restore(states) => HdrPlan::Restore(states@),
        }
    }
}

/// The requests that carry out a plan on the displays found just before.
pub open spec fn plan_requests(plan: HdrPlan, found: Seq<DisplayState>) -> Seq<SetRequest> {
    match plan {
        HdrPlan::Nothing => Seq::empty(),
        HdrPlan::EnableAll { save } => switch_requests(found, true),
        HdrPlan::DisableAll => switch_requests(found, false),
        HdrPlan::Restore(states) => restore_requests(states),
    }
}

/// The state once a plan was carried out on the displays found just before.
pub open spec fn completed(s: AppModel, plan: HdrPlan, found: Seq<DisplayState>) -> AppModel {
    if plan == (HdrPlan::EnableAll { save: true }) {
        AppModel { saved_states: Some(found), ..s }
    } else {
        s
    }
}

impl HdrAction {
    /// Whether the displays have to be queried before the action can be completed.
    pub fn needs_query(&self) -> (r: bool)
        ensures
            r == (self@ is EnableAll || self@ is DisableAll),
    {
        match self {
            HdrAction::EnableAll { save: _ } => true,
            HdrAction::DisableAll => true,
            _ => false,
        }
    }
}

/// What saved states there are to bring back on the way out.
pub open spec fn restoring(s: AppModel) -> HdrPlan {
    match s.saved_states {
        Some(states) if s.settings.restore_on_exit => HdrPlan::Restore(states),
        _ => HdrPlan::Nothing,
    }
}

/// The state without the saved states that are brought back on the way out.
pub open spec fn released(s: AppModel) -> AppModel {
    if s.settings.restore_on_exit {
        AppModel { saved_states: None, ..s }
    } else {
        s
    }
}

/// The state to start with while `count` watched games already run.
pub open spec fn initial(settings: Settings, count: nat) -> AppModel {
    AppModel {
        settings,
        messages: if count > 0 {
            seq!["HDR enabled (watched game already running)."@]
        } else {
            Seq::empty()
        },
        active_count: count,
        hdr_manually_on: false,
        hdr_override_off: false,
        saved_states: None,
        window_open: false,
        needs_tray_refresh: count > 0,
        needs_taskbar_show: false,
        needs_taskbar_hide: false,
    }
}

/// What is done to the displays at the start.
pub open spec fn initial_plan(count: nat) -> HdrPlan {
    if count > 0 {
        HdrPlan::EnableAll { save: true }
    } else {
        HdrPlan::Nothing
    }
}

impl AppState {
    /// The state to start with, given the settings: the watched games among the processes that
    /// the machine lists count as started.
    pub fn new(config: Config) -> (r: (AppState, HdrAction))
        ensures
            exists|listing: Listing|
                r.0@ == initial(config@, running(config@.games, #[trigger] listing@)),
            r.1@ == initial_plan(r.0@.active_count),
            r.0@.active_count <= config@.games.len(),
    {
        let active_count = count_running_games(&config);
        Self::starting(config, active_count)
    }

    /// The state to start with while `active_count` watched games already run.
    pub fn starting(config: Config, active_count: usize) -> (r: (AppState, HdrAction))
        ensures
            r.0@ == initial(config@, active_count as nat),
            r.1@ == initial_plan(active_count as nat),
            r.0@.consistent(),
    {
        let mut messages: Vec<String> = Vec::new();
        let action = if active_count > 0 {
            messages.push("HDR enabled (watched game already running).".to_owned());
            HdrAction::EnableAll { save: true }
        } else {
            HdrAction::Nothing
        };
        let state = AppState {
            config,
            messages,
            active_count,
            hdr_manually_on: false,
            hdr_override_off: false,
            saved_states: None,
            window_open: false,
            needs_tray_refresh: active_count > 0,
            needs_taskbar_show: false,
            needs_taskbar_hide: false,
        };
        assert(state@.messages == if active_count > 0 {
            seq!["HDR enabled (watched game already running)."@]
        } else {
            Seq::empty()
        });
        (state, action)
    }

    /// Whether HDR is meant to be on.
    pub fn hdr_on(&self) -> (r: bool)
        ensures
            r == self@.hdr_on(),
    {
        !self.hdr_override_off && (self.active_count > 0 || self.hdr_manually_on)
    }

    /// Adds a message to the activity log.
    pub fn push_msg(&mut self, msg: String)
        ensures
            final(self)@ == old(self)@.logged(msg@),
    {
        proof {
            lemma_map_push(self.messages@, msg, |s: String| s@);
        }
        self.messages.push(msg);
        if self.messages.len() > LOG_LIMIT {
            let ghost long = self.messages@;
            self.messages.remove(0);
            assert(texts(self.messages@) == texts(long).drop_first());
        }
    }

    /// Whether a process of this name is one of the watched games.
    pub fn is_watched(&self, exe: &str) -> (r: bool)
        ensures
            r == watches(self@.settings.games, exe@),
    {
        self.config.watches(exe)
    }

    /// Carries an action out on the displays as they were found: the requests to send, with
    /// the found states remembered where the action says so.
    pub fn complete(&mut self, action: HdrAction, found: Vec<DisplayState>) -> (r: Vec<SetRequest>)
        ensures
            final(self)@ == completed(old(self)@, action@, found@),
            r@ == plan_requests(action@, found@),
    {
        match action {
            HdrAction::Nothing => Vec::new(),
            HdrAction::EnableAll { save } => {
                let requests = enable_all(&found);
                if save {
                    self.saved_states = Some(found);
                }
                requests
            },
            HdrAction::DisableAll => disable_all(&found),
            HdrAction::Restore(states) => restore(&states),
        }
    }

    /// Hands out the saved states where they are to be brought back on the way out.
    pub fn leave(&mut self) -> (r: HdrAction)
        ensures
            final(self)@ == released(old(self)@),
            r@ == restoring(old(self)@),
    {
        if self.config.restore_on_exit {
            match self.saved_states.take() {
                Some(states) => HdrAction::Restore(states),
                None => HdrAction::Nothing,
            }
        } else {
            HdrAction::Nothing
        }
    }
}

} // verus!
