use hdrify::hdr::{
    active_targets, disable_all, enable_all, query_displays, restore, set_accepted, set_hdr,
    switch_all, ColorReply, DisplayQuery, DisplayState, DisplayTarget, Luid, SetRequest,
};

fn luid(n: u32) -> Luid {
    Luid { low_part: n, high_part: -1 }
}

fn display(n: u32, hdr_supported: bool, hdr_enabled: bool) -> DisplayState {
    DisplayState { adapter_id: luid(n), target_id: n + 100, hdr_enabled, hdr_supported }
}

fn reply(n: u32, status: i32, value: u32) -> ColorReply {
    ColorReply { target: DisplayTarget { adapter_id: luid(n), target_id: n + 100 }, status, value }
}

fn obey(displays: &mut Vec<DisplayState>, requests: &[SetRequest]) {
    for r in requests {
        for d in displays.iter_mut() {
            if d.hdr_supported && d.adapter_id == r.adapter_id && d.target_id == r.target_id {
                d.hdr_enabled = r.value == 1;
            }
        }
    }
}

#[test]
fn bits_of_the_colour_reply() {
    let found = query_displays(&DisplayQuery::Answered(vec![
        reply(1, 0, 0),
        reply(2, 0, 1),
        reply(3, 0, 2),
        reply(4, 0, 3),
        reply(5, 0, 0xffff_fffc),
    ]));
    assert_eq!(
        found,
        vec![
            display(1, false, false),
            display(2, true, false),
            display(3, false, true),
            display(4, true, true),
            display(5, false, false),
        ]
    );
}

#[test]
fn displays_that_do_not_answer_are_left_out() {
    let found = query_displays(&DisplayQuery::Answered(vec![
        reply(1, 31, 3),
        reply(2, 0, 1),
        reply(3, -5, 3),
    ]));
    assert_eq!(found, vec![display(2, true, false)]);
}

#[test]
fn failed_queries_find_nothing() {
    assert!(query_displays(&DisplayQuery::SizesFailed).is_empty());
    assert!(query_displays(&DisplayQuery::PathsFailed).is_empty());
    assert!(query_displays(&DisplayQuery::Answered(vec![])).is_empty());
}

#[test]
fn only_filled_paths_count() {
    let table: Vec<DisplayTarget> =
        (0..4).map(|n| DisplayTarget { adapter_id: luid(n), target_id: n }).collect();
    assert_eq!(active_targets(&table, 2), table[..2].to_vec());
    assert_eq!(active_targets(&table, 0), vec![]);
    assert_eq!(active_targets(&table, 9), table);
}

#[test]
fn one_request_per_switch() {
    assert_eq!(
        set_hdr(luid(7), 8, true),
        SetRequest { adapter_id: luid(7), target_id: 8, value: 1 }
    );
    assert_eq!(set_hdr(luid(7), 8, false).value, 0);
    assert!(set_accepted(0));
    assert!(!set_accepted(87));
}

#[test]
fn switching_asks_capable_displays_only() {
    let states = vec![display(1, true, false), display(2, false, false), display(3, true, true)];
    let on = vec![set_hdr(luid(1), 101, true), set_hdr(luid(3), 103, true)];
    let off = vec![set_hdr(luid(1), 101, false), set_hdr(luid(3), 103, false)];
    assert_eq!(enable_all(&states), on);
    assert_eq!(switch_all(&states, true), on);
    assert_eq!(disable_all(&states), off);
}

#[test]
fn restoring_asks_every_display() {
    let states = vec![display(1, true, false), display(2, false, false), display(3, true, true)];
    assert_eq!(
        restore(&states),
        vec![
            set_hdr(luid(1), 101, false),
            set_hdr(luid(2), 102, false),
            set_hdr(luid(3), 103, true),
        ]
    );
}

#[test]
fn enabling_lights_all_and_restoring_undoes_it() {
    let before = vec![display(1, true, false), display(2, false, false), display(3, true, true)];
    let mut displays = before.clone();
    obey(&mut displays, &enable_all(&before));
    assert_eq!(
        displays,
        vec![display(1, true, true), display(2, false, false), display(3, true, true)]
    );
    obey(&mut displays, &restore(&before));
    assert_eq!(displays, before);
    obey(&mut displays, &disable_all(&before));
    obey(&mut displays, &restore(&before));
    assert_eq!(displays, before);
}
