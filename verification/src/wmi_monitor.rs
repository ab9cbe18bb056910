//! What the process tracing reports.

use crate::config::watches;
use crate::hdr::DisplayState;
use crate::manager::{process_noted, process_plan};
use crate::state::{completed, AppModel, AppState, HdrPlan};
use vstd::prelude::*;

verus! {

/// A process event on its way to the manager.
#[derive(Debug)]
pub enum ProcessEvent {
    /// Process started.  If HDR was enabled immediately by the monitor thread,
    /// the pre-enable display states are included so the manager can use them
    /// for later restoration.
    Started(String, Option<Vec<DisplayState>>),
    Stopped(String),
    WmiError(String),
}

/// A process event as text.
pub enum ProcessNote {
    Started(Seq<char>, Option<Seq<DisplayState>>),
    Stopped(Seq<char>),
    WmiError(Seq<char>),
}

pub open spec fn opt_states(v: Option<Vec<DisplayState>>) -> Option<Seq<DisplayState>> {
    match v {
        Some(states) => Some(states@),
        None => None,
    }
}

impl View for ProcessEvent {
    type V = ProcessNote;

    open spec fn view(&self) -> ProcessNote {
        match self {
            ProcessEvent::Started(name, states) => ProcessNote::Started(name@, opt_states(*states)),
            ProcessEvent::Stopped(name) => ProcessNote::Stopped(name@),
            ProcessEvent::WmiError(msg) => ProcessNote::WmiError(msg@),
        }
    }
}

/// Which of the two traces something went wrong on.
#[derive(Clone, Copy, Debug, PartialEq, Eq, Structural)]
pub enum Trace {
    Start,
    Stop,
}

/// What went wrong on a trace.
#[derive(Clone, Copy, Debug, PartialEq, Eq, Structural)]
pub enum Fault {
    ComInit,
    Connect,
    Subscribe,
    Event,
}

/// How the report of a fault begins.
pub open spec fn fault_text(trace: Trace, fault: Fault) -> Seq<char> {
    match fault {
        Fault::ComInit => "COM init failed: "@,
        Fault::Connect => "WMI connect failed: "@,
        Fault::Subscribe => match trace {
            Trace::Start => "WMI start trace failed (admin required): "@,
            Trace::Stop => "WMI stop trace failed (admin required): "@,
        },
        Fault::Event => match trace {
            Trace::Start => "Start event error: "@,
            Trace::Stop => "Stop event error: "@,
        },
    }
}

/// The report of a fault, with its detail.
pub fn trace_error(trace: Trace, fault: Fault, detail: &str) -> (r: ProcessEvent)
    ensures
        r@ == ProcessNote::WmiError(fault_text(trace, fault) + detail@),
{
    let mut text = match fault {
        Fault::ComInit => "COM init failed: ".to_owned(),
        Fault::Connect => "WMI connect failed: ".to_owned(),
        Fault::Subscribe => match trace {
            Trace::Start => "WMI start trace failed (admin required): ".to_owned(),
            Trace::Stop => "WMI stop trace failed (admin required): ".to_owned(),
        },
        Fault::Event => match trace {
            Trace::Start => "Start event error: ".to_owned(),
            Trace::Stop => "Stop event error: ".to_owned(),
        },
    };
    text.append(detail);
    ProcessEvent::WmiError(text)
}

/// Whether a fault ends the trace. Only a faulty event does not.
pub fn ends_trace(fault: Fault) -> (r: bool)
    ensures
        r == (fault != Fault::Event),
{
    match fault {
        Fault::Event => false,
        _ => true,
    }
}

/// Whether the start of this process is one on which HDR is enabled.
pub open spec fn enables_at_once(s: AppModel, name: Seq<char>) -> bool {
    watches(s.settings.games, name) && s.idle()
}

/// The fast path: whether the monitor enables HDR itself, before the manager even wakes up.
pub fn should_enable(state: &AppState, name: &str) -> (r: bool)
    ensures
        r == enables_at_once(state@, name@),
{
    state.is_watched(name) && state.active_count == 0 && !state.hdr_manually_on
        && !state.hdr_override_off
}

/// The event that a started process gives. `found` holds the display states found before
/// the monitor enabled HDR, where it did.
pub fn started(name: String, found: Option<Vec<DisplayState>>) -> (r: ProcessEvent)
    ensures
        r@ == ProcessNote::Started(name@, opt_states(found)),
{
    ProcessEvent::Started(name, found)
}

/// The event that a stopped process gives.
pub fn stopped(name: String) -> (r: ProcessEvent)
    ensures
        r@ == ProcessNote::Stopped(name@),
{
    ProcessEvent::Stopped(name)
}

/// The fast path and the manager agree. Where the monitor enables HDR, the manager would have,
/// sends nothing more to the displays, and ends in the same state; where the monitor does not,
/// neither does the manager.
pub proof fn law_fast_path_agrees(s: AppModel, name: Seq<char>, found: Seq<DisplayState>)
    ensures
        enables_at_once(s, name) ==> {
            let slow = ProcessNote::Started(name, None);
            let fast = ProcessNote::Started(name, Some(found));
            &&& process_plan(s, slow) == (HdrPlan::EnableAll { save: true })
            &&& process_plan(s, fast) == HdrPlan::Nothing
            &&& process_noted(s, fast) == completed(
                process_noted(s, slow),
                process_plan(s, slow),
                found,
            )
        },
        !enables_at_once(s, name) ==> process_plan(s, ProcessNote::Started(name, None))
            == HdrPlan::Nothing,
{
}

} // verus!
