//! HDR per display: what the displays report, and what they are told.

use crate::seqs::lemma_filter_map_push;
use vstd::prelude::*;

verus! {

/// The locally unique number of a graphics adapter.
#[derive(Clone, Copy, Debug, PartialEq, Eq, Structural)]
pub struct Luid {
    pub low_part: u32,
    pub high_part: i32,
}

/// One display as it was found.
#[derive(Clone, Copy, Debug, PartialEq, Eq, Structural)]
pub struct DisplayState {
    pub adapter_id: Luid,
    pub target_id: u32,
    pub hdr_enabled: bool,
    pub hdr_supported: bool,
}

/// The display at the far end of one active path.
#[derive(Clone, Copy, Debug, PartialEq, Eq, Structural)]
pub struct DisplayTarget {
    pub adapter_id: Luid,
    pub target_id: u32,
}

/// What one display answered when asked for its advanced colour info.
/// `value` holds an answer only where `status` is 0.
#[derive(Clone, Copy, Debug, PartialEq, Eq, Structural)]
pub struct ColorReply {
    pub target: DisplayTarget,
    pub status: i32,
    pub value: u32,
}

/// How far a query of the display configuration came.
#[derive(Debug)]
pub enum DisplayQuery {
    /// The sizes of the path and mode tables could not be had.
    SizesFailed,
    /// The tables themselves could not be had.
    PathsFailed,
    /// Each active path's display was asked, in the order of the paths.
    Answered(Vec<ColorReply>),
}

/// A request to switch the advanced colour state of one display: 1 is on, 0 is off.
#[derive(Clone, Copy, Debug, PartialEq, Eq, Structural)]
pub struct SetRequest {
    pub adapter_id: Luid,
    pub target_id: u32,
    pub value: u32,
}

/// What a successful colour reply says: bit 0 is the capability, bit 1 whether it is on.
pub open spec fn reported(r: ColorReply) -> DisplayState {
    DisplayState {
        adapter_id: r.target.adapter_id,
        target_id: r.target.target_id,
        hdr_supported: r.value % 2 == 1,
        hdr_enabled: (r.value / 2) % 2 == 1,
    }
}

/// The displays that a query found: those that answered, in the order in which they were asked.
pub open spec fn found(q: DisplayQuery) -> Seq<DisplayState> {
    match q {
        DisplayQuery::Answered(replies) => replies@.filter(
            |r: ColorReply| r.status == 0,
        ).map_values(|r: ColorReply| reported(r)),
        _ => Seq::empty(),
    }
}

pub open spec fn request(d: DisplayState, on: bool) -> SetRequest {
    SetRequest {
        adapter_id: d.adapter_id,
        target_id: d.target_id,
        value: if on { 1 } else { 0 },
    }
}

/// One request for each HDR-capable display, all to the same end.
pub open spec fn switch_requests(states: Seq<DisplayState>, on: bool) -> Seq<SetRequest> {
    states.filter(|d: DisplayState| d.hdr_supported).map_values(|d: DisplayState| request(d, on))
}

/// One request for each display, to the state that it was found in.
pub open spec fn restore_requests(states: Seq<DisplayState>) -> Seq<SetRequest> {
    states.map_values(|d: DisplayState| request(d, d.hdr_enabled))
}

/// The paths that the query really filled in, of the table that was handed to it.
pub fn active_targets(table: &Vec<DisplayTarget>, path_count: u32) -> (r: Vec<DisplayTarget>)
    ensures
        r@ == table@.take(
            if path_count < table@.len() {
                path_count as int
            } else {
                table@.len() as int
            },
        ),
{
    let mut out: Vec<DisplayTarget> = Vec::new();
    let mut i: usize = 0;
    while i < table.len() && i < path_count as usize
        invariant
            i <= table.len(),
            i <= path_count,
            out@ == table@.take(i as int),
        decreases table.len() - i,
    {
        out.push(table[i]);
        i = i + 1;
        assert(out@ == table@.take(i as int));
    }
    out
}

fn decode(r: &ColorReply) -> (d: DisplayState)
    ensures
        d == reported(*r),
{
    let v: u32 = r.value;
    assert((v & 1 != 0) == (v % 2 == 1)) by (bit_vector);
    assert((v & 2 != 0) == ((v / 2) % 2 == 1)) by (bit_vector);
    DisplayState {
        adapter_id: r.target.adapter_id,
        target_id: r.target.target_id,
        hdr_supported: (v & 1) != 0,
        hdr_enabled: (v & 2) != 0,
    }
}

/// The displays found by a query. A query that failed found none, and a display that could
/// not be asked is left out.
pub fn query_displays(query: &DisplayQuery) -> (r: Vec<DisplayState>)
    ensures
        r@ == found(*query),
{
    let mut out: Vec<DisplayState> = Vec::new();
    match query {
        DisplayQuery::SizesFailed => {},
        DisplayQuery::PathsFailed => {},
        DisplayQuery::Answered(replies) => {
            let ghost keep = |r: ColorReply| r.status == 0;
            let ghost f = |r: ColorReply| reported(r);
            let mut i: usize = 0;
            reveal(Seq::filter);
            assert(replies@.take(0).filter(keep).map_values(f) == Seq::<DisplayState>::empty());
            while i < replies.len()
                invariant
                    i <= replies.len(),
                    keep == (|r: ColorReply| r.status == 0),
                    f == (|r: ColorReply| reported(r)),
                    out@ == replies@.take(i as int).filter(keep).map_values(f),
                decreases replies.len() - i,
            {
                proof {
                    lemma_filter_map_push(replies@.take(i as int), replies@[i as int], keep, f);
                    assert(replies@.take(i + 1) == replies@.take(i as int).push(
                        replies@[i as int],
                    ));
                }
                if replies[i].status == 0 {
                    out.push(decode(&replies[i]));
                }
                i = i + 1;
            }
            assert(replies@.take(replies@.len() as int) == replies@);
        },
    }
    out
}

/// The request that switches one display.
pub fn set_hdr(adapter_id: Luid, target_id: u32, enable: bool) -> (r: SetRequest)
    ensures
        r == (SetRequest { adapter_id, target_id, value: if enable { 1 } else { 0 } }),
{
    SetRequest { adapter_id, target_id, value: if enable { 1 } else { 0 } }
}

/// Whether a display took a request, by the status that came back.
pub fn set_accepted(status: i32) -> (r: bool)
    ensures
        r == (status == 0),
{
    status == 0
}

/// The requests that switch every HDR-capable display.
pub fn switch_all(states: &Vec<DisplayState>, on: bool) -> (r: Vec<SetRequest>)
    ensures
        r@ == switch_requests(states@, on),
{
    let ghost keep = |d: DisplayState| d.hdr_supported;
    let ghost f = |d: DisplayState| request(d, on);
    let mut out: Vec<SetRequest> = Vec::new();
    let mut i: usize = 0;
    reveal(Seq::filter);
    assert(states@.take(0).filter(keep).map_values(f) == Seq::<SetRequest>::empty());
    while i < states.len()
        invariant
            i <= states.len(),
            keep == (|d: DisplayState| d.hdr_supported),
            f == (|d: DisplayState| request(d, on)),
            out@ == states@.take(i as int).filter(keep).map_values(f),
        decreases states.len() - i,
    {
        proof {
            lemma_filter_map_push(states@.take(i as int), states@[i as int], keep, f);
            assert(states@.take(i + 1) == states@.take(i as int).push(states@[i as int]));
        }
        let d = states[i];
        if d.hdr_supported {
            out.push(set_hdr(d.adapter_id, d.target_id, on));
        }
        i = i + 1;
    }
    assert(states@.take(states@.len() as int) == states@);
    out
}

/// The requests that enable HDR on all HDR-capable displays, given the states found just
/// before. Keep those states: `restore` takes them.
pub fn enable_all(states: &Vec<DisplayState>) -> (r: Vec<SetRequest>)
    ensures
        r@ == switch_requests(states@, true),
{
    switch_all(states, true)
}

/// The requests that disable HDR on all HDR-capable displays.
pub fn disable_all(states: &Vec<DisplayState>) -> (r: Vec<SetRequest>)
    ensures
        r@ == switch_requests(states@, false),
{
    switch_all(states, false)
}

/// The requests that bring the HDR state back that was saved before a game started.
pub fn restore(states: &Vec<DisplayState>) -> (r: Vec<SetRequest>)
    ensures
        r@ == restore_requests(states@),
{
    let mut out: Vec<SetRequest> = Vec::new();
    let mut i: usize = 0;
    while i < states.len()
        invariant
            i <= states.len(),
            out@ == restore_requests(states@.take(i as int)),
        decreases states.len() - i,
    {
        let d = states[i];
        out.push(set_hdr(d.adapter_id, d.target_id, d.hdr_enabled));
        i = i + 1;
        assert(out@ == restore_requests(states@.take(i as int)));
    }
    assert(states@.take(states@.len() as int) == states@);
    out
}

/// What a display becomes when it takes a request. A display that does not know HDR
/// takes none, and no display takes a request addressed to another.
pub open spec fn obeyed(d: DisplayState, r: SetRequest) -> DisplayState {
    if d.hdr_supported && d.adapter_id == r.adapter_id && d.target_id == r.target_id {
        DisplayState { hdr_enabled: r.value == 1, ..d }
    } else {
        d
    }
}

/// The displays after they were sent the requests one after another.
pub open spec fn after_requests(displays: Seq<DisplayState>, requests: Seq<SetRequest>) -> Seq<
    DisplayState,
>
    decreases requests.len(),
{
    if requests.len() == 0 {
        displays
    } else {
        after_requests(displays, requests.drop_last()).map_values(
            |d: DisplayState| obeyed(d, requests.last()),
        )
    }
}

/// No two displays answer to the same address.
pub open spec fn distinct_displays(displays: Seq<DisplayState>) -> bool {
    forall|i: int, j: int|
        0 <= i < displays.len() && 0 <= j < displays.len() && i != j ==> (
        #[trigger] displays[i]).adapter_id != (#[trigger] displays[j]).adapter_id
            || displays[i].target_id != displays[j].target_id
}

/// The same displays, which differ at most in whether HDR is on where it can be switched.
pub open spec fn same_displays(a: Seq<DisplayState>, b: Seq<DisplayState>) -> bool {
    &&& a.len() == b.len()
    &&& forall|i: int|
        0 <= i < a.len() ==> {
            &&& (#[trigger] a[i]).adapter_id == b[i].adapter_id
            &&& a[i].target_id == b[i].target_id
            &&& a[i].hdr_supported == b[i].hdr_supported
            &&& !a[i].hdr_supported ==> a[i].hdr_enabled == b[i].hdr_enabled
        }
}

/// The displays with HDR on or off wherever it can be switched.
pub open spec fn all_switched(displays: Seq<DisplayState>, on: bool) -> Seq<DisplayState> {
    displays.map_values(
        |d: DisplayState|
            if d.hdr_supported {
                DisplayState { hdr_enabled: on, ..d }
            } else {
                d
            },
    )
}

/// Requests never add, remove or readdress a display, and never touch one without HDR.
pub proof fn law_requests_keep_displays(displays: Seq<DisplayState>, requests: Seq<SetRequest>)
    ensures
        same_displays(displays, after_requests(displays, requests)),
    decreases requests.len(),
{
    if requests.len() > 0 {
        law_requests_keep_displays(displays, requests.drop_last());
    }
}

proof fn lemma_switched_prefix(
    displays: Seq<DisplayState>,
    states: Seq<DisplayState>,
    on: bool,
    k: int,
)
    requires
        same_displays(states, displays),
        distinct_displays(states),
        0 <= k <= states.len(),
    ensures
        after_requests(displays, switch_requests(states.take(k), on)) == all_switched(
            displays.take(k),
            on,
        ) + displays.skip(k),
    decreases k,
{
    let keep = |d: DisplayState| d.hdr_supported;
    let f = |d: DisplayState| request(d, on);
    let now = after_requests(displays, switch_requests(states.take(k), on));
    let goal = all_switched(displays.take(k), on) + displays.skip(k);
    if k == 0 {
        reveal(Seq::filter);
        assert(states.take(0).filter(keep).map_values(f) == Seq::<SetRequest>::empty());
        assert(goal == displays);
    } else {
        lemma_switched_prefix(displays, states, on, k - 1);
        lemma_filter_map_push(states.take(k - 1), states[k - 1], keep, f);
        assert(states.take(k) == states.take(k - 1).push(states[k - 1]));
        let prev = all_switched(displays.take(k - 1), on) + displays.skip(k - 1);
        let d = states[k - 1];
        if d.hdr_supported {
            let earlier = switch_requests(states.take(k - 1), on);
            let all = switch_requests(states.take(k), on);
            assert(all == earlier.push(request(d, on)));
            assert(all.drop_last() == earlier);
            assert forall|i: int| 0 <= i < displays.len() implies obeyed(
                #[trigger] prev[i],
                request(d, on),
            ) == goal[i] by {
                assert(states[i].adapter_id == displays[i].adapter_id);
                assert(states[k - 1].adapter_id == displays[k - 1].adapter_id);
            }
            assert(now == goal);
        } else {
            assert(states[k - 1].hdr_supported == displays[k - 1].hdr_supported);
            assert(prev == goal);
        }
    }
}

proof fn lemma_restored_prefix(displays: Seq<DisplayState>, saved: Seq<DisplayState>, k: int)
    requires
        same_displays(saved, displays),
        distinct_displays(saved),
        0 <= k <= saved.len(),
    ensures
        after_requests(displays, restore_requests(saved.take(k))) == saved.take(k)
            + displays.skip(k),
    decreases k,
{
    let goal = saved.take(k) + displays.skip(k);
    if k == 0 {
        assert(restore_requests(saved.take(0)) == Seq::<SetRequest>::empty());
        assert(goal == displays);
    } else {
        lemma_restored_prefix(displays, saved, k - 1);
        let prev = saved.take(k - 1) + displays.skip(k - 1);
        let d = saved[k - 1];
        let all = restore_requests(saved.take(k));
        assert(all.drop_last() == restore_requests(saved.take(k - 1)));
        assert(all.last() == request(d, d.hdr_enabled));
        assert forall|i: int| 0 <= i < displays.len() implies obeyed(
            #[trigger] prev[i],
            request(d, d.hdr_enabled),
        ) == goal[i] by {
            assert(saved[i].adapter_id == displays[i].adapter_id);
            assert(saved[k - 1].adapter_id == displays[k - 1].adapter_id);
        }
        assert(after_requests(displays, all) == goal);
    }
}

/// Switching leaves HDR on (or off) on every display that knows it, and changes nothing else.
pub proof fn law_switch_reaches_all(displays: Seq<DisplayState>, on: bool)
    requires
        distinct_displays(displays),
    ensures
        after_requests(displays, switch_requests(displays, on)) == all_switched(displays, on),
{
    lemma_switched_prefix(displays, displays, on, displays.len() as int);
    assert(displays.take(displays.len() as int) == displays);
    assert(all_switched(displays, on) + displays.skip(displays.len() as int) == all_switched(
        displays,
        on,
    ));
}

/// Restoring brings back exactly the saved state of every display, whatever the displays
/// were switched to since.
pub proof fn law_restore_recovers(saved: Seq<DisplayState>, displays: Seq<DisplayState>)
    requires
        distinct_displays(saved),
        same_displays(saved, displays),
    ensures
        after_requests(displays, restore_requests(saved)) == saved,
{
    lemma_restored_prefix(displays, saved, saved.len() as int);
    assert(saved.take(saved.len() as int) == saved);
    assert(saved + displays.skip(saved.len() as int) == saved);
}

/// Enabling HDR and restoring the states found before is as if nothing had happened,
/// whichever displays had HDR on or off beforehand.
pub proof fn law_enable_then_restore(displays: Seq<DisplayState>)
    requires
        distinct_displays(displays),
    ensures
        after_requests(
            after_requests(displays, switch_requests(displays, true)),
            restore_requests(displays),
        ) == displays,
{
    law_requests_keep_displays(displays, switch_requests(displays, true));
    law_restore_recovers(displays, after_requests(displays, switch_requests(displays, true)));
}

/// A query finds one display more for each further reply that succeeded, with bit 0 as the
/// capability and bit 1 as whether HDR is on, and none for one that failed. A failed query finds
/// none at all.
pub proof fn law_each_reply_counts(before: Vec<ColorReply>, after: Vec<ColorReply>, r: ColorReply)
    requires
        after@ == before@.push(r),
    ensures
        r.status != 0 ==> found(DisplayQuery::Answered(after)) == found(
            DisplayQuery::Answered(before),
        ),
        r.status == 0 ==> found(DisplayQuery::Answered(after)) == found(
            DisplayQuery::Answered(before),
        ).push(
            DisplayState {
                adapter_id: r.target.adapter_id,
                target_id: r.target.target_id,
                hdr_supported: r.value & 1 != 0,
                hdr_enabled: r.value & 2 != 0,
            },
        ),
        found(DisplayQuery::SizesFailed).len() == 0,
        found(DisplayQuery::PathsFailed).len() == 0,
        before@.len() == 0 ==> found(DisplayQuery::Answered(before)).len() == 0,
{
    let v = r.value;
    assert((v & 1 != 0) == (v % 2 == 1)) by (bit_vector);
    assert((v & 2 != 0) == ((v / 2) % 2 == 1)) by (bit_vector);
    lemma_filter_map_push(
        before@,
        r,
        |r: ColorReply| r.status == 0,
        |r: ColorReply| reported(r),
    );
    reveal(Seq::filter);
}

/// Switching asks each display that knows HDR, in order, and no other, for exactly the state that
/// is wanted; restoring asks every display for the state it was found in.
pub proof fn law_each_display_is_asked(states: Seq<DisplayState>, d: DisplayState, on: bool)
    ensures
        d.hdr_supported ==> switch_requests(states.push(d), on) == switch_requests(states, on).push(
            SetRequest {
                adapter_id: d.adapter_id,
                target_id: d.target_id,
                value: if on { 1 } else { 0 },
            },
        ),
        !d.hdr_supported ==> switch_requests(states.push(d), on) == switch_requests(states, on),
        switch_requests(Seq::empty(), on).len() == 0,
        restore_requests(states.push(d)) == restore_requests(states).push(
            SetRequest {
                adapter_id: d.adapter_id,
                target_id: d.target_id,
                value: if d.hdr_enabled { 1 } else { 0 },
            },
        ),
        restore_requests(Seq::empty()).len() == 0,
        request(d, on) == (SetRequest {
            adapter_id: d.adapter_id,
            target_id: d.target_id,
            value: if on { 1 } else { 0 },
        }),
{
    lemma_filter_map_push(
        states,
        d,
        |d: DisplayState| d.hdr_supported,
        |d: DisplayState| request(d, on),
    );
    reveal(Seq::filter);
    assert(restore_requests(states.push(d)) == restore_requests(states).push(
        request(d, d.hdr_enabled),
    ));
}

} // verus!
