//! The processes of the machine: which games run, and which names there are to pick from.

use crate::config::{running, runs, texts, Config, Game};
use crate::machine::{process_names, Listing};
use crate::seqs::{lemma_filter_push, lemma_map_push, lemma_take_push};
use crate::text::{
    contains, contains_text, eq_ignore_ascii_case, law_contains_pieces, law_precedes_total, law_precedes_transitive,
    lemma_precedes_excludes, precedes, rank, same_ignoring_case, Rank,
};
use vstd::prelude::*;

verus! {

/// What `str::to_lowercase` makes of a text.
pub uninterp spec fn lowercase(s: Seq<char>) -> Seq<char>;

/// `str::to_lowercase`: the text with every character replaced by its Unicode lowercase. It is
/// determined by the text alone, and nothing comes of nothing.
#[verifier::external_body]
fn to_lowercase(s: &str) -> (r: String)
    ensures
        r@ == lowercase(s@),
        s@.len() == 0 ==> r@.len() == 0,
{
    s.to_lowercase()
}

/// How many watched games run, given the names of all processes.
pub fn count_running(config: &Config, processes: &Vec<String>) -> (r: usize)
    ensures
        r == running(config@.games, texts(processes@)),
        r <= config@.games.len(),
{
    let ghost games = config@.games;
    let ghost names = texts(processes@);
    let ghost keep = |g: Game| runs(names, g);
    let mut count: usize = 0;
    let mut i: usize = 0;
    reveal(Seq::filter);
    while i < config.games.len()
        invariant
            i <= config.games.len(),
            count <= i,
            games == config@.games,
            names == texts(processes@),
            keep == (|g: Game| runs(names, g)),
            count == games.take(i as int).filter(keep).len(),
        decreases config.games.len() - i,
    {
        proof {
            lemma_take_push(games, i as int);
            lemma_filter_push(games.take(i as int), games[i as int], keep);
        }
        let exe = config.games[i].exe_name.as_str();
        let mut found = false;
        let mut j: usize = 0;
        while j < processes.len() && !found
            invariant
                j <= processes.len(),
                names == texts(processes@),
                i < config.games.len(),
                games == config@.games,
                exe@ == games[i as int].exe_name,
                found ==> runs(names, games[i as int]),
                !found ==> forall|k: int|
                    0 <= k < j ==> !same_ignoring_case(
                        #[trigger] names[k],
                        games[i as int].exe_name,
                    ),
            decreases processes.len() - j,
        {
            if eq_ignore_ascii_case(processes[j].as_str(), exe) {
                assert(same_ignoring_case(names[j as int], games[i as int].exe_name));
                found = true;
            }
            j = j + 1;
        }
        if found {
            count = count + 1;
        }
        i = i + 1;
    }
    assert(games.take(games.len() as int) == games);
    count
}

/// How many watched games run right now, by what the machine lists.
pub fn count_running_games(config: &Config) -> (r: usize)
    ensures
        r <= config@.games.len(),
        exists|listing: Listing| r == running(config@.games, #[trigger] listing@),
{
    let listing = process_names();
    let ghost listed = listing;
    let r = count_running(config, &listing.into_names());
    assert(r == running(config@.games, listed@));
    r
}

/// A list in which every text comes before the next, so that none occurs twice.
pub open spec fn strictly_sorted(list: Seq<Seq<char>>) -> bool {
    forall|i: int, j: int|
        0 <= i < j < list.len() ==> precedes(#[trigger] list[i], #[trigger] list[j])
}

/// The same texts, however often and in whatever order.
pub open spec fn same_texts(a: Seq<Seq<char>>, b: Seq<Seq<char>>) -> bool {
    forall|t: Seq<char>| a.contains(t) == b.contains(t)
}

/// Where `name` belongs in a sorted list, and whether it is there.
fn place(list: &Vec<String>, name: &str) -> (r: (usize, bool))
    requires
        strictly_sorted(texts(list@)),
    ensures
        r.0 <= list.len(),
        forall|k: int| 0 <= k < r.0 ==> precedes(#[trigger] texts(list@)[k], name@),
        r.1 ==> r.0 < list.len() && texts(list@)[r.0 as int] == name@,
        !r.1 ==> forall|k: int|
            r.0 <= k < list.len() ==> precedes(name@, #[trigger] texts(list@)[k]),
{
    let ghost t = texts(list@);
    let mut lo: usize = 0;
    let mut hi: usize = list.len();
    while lo < hi
        invariant
            lo <= hi <= list.len(),
            t == texts(list@),
            strictly_sorted(t),
            forall|k: int| 0 <= k < lo ==> precedes(#[trigger] t[k], name@),
            forall|k: int| hi <= k < list.len() ==> precedes(name@, #[trigger] t[k]),
        decreases hi - lo,
    {
        let mid: usize = lo + (hi - lo) / 2;
        match rank(list[mid].as_str(), name) {
            Rank::Before => {
                assert forall|k: int| 0 <= k < mid + 1 implies precedes(
                    #[trigger] t[k],
                    name@,
                ) by {
                    if k < mid {
                        law_precedes_transitive(t[k], t[mid as int], name@);
                    }
                }
                lo = mid + 1;
            },
            Rank::Same => {
                assert(t[mid as int] == name@);
                return (mid, true);
            },
            Rank::After => {
                assert forall|k: int| mid <= k < list.len() implies precedes(
                    name@,
                    #[trigger] t[k],
                ) by {
                    if mid < k {
                        law_precedes_transitive(name@, t[mid as int], t[k]);
                    }
                }
                hi = mid;
            },
        }
    }
    (lo, false)
}

/// The names in order, each of them once.
pub fn sorted_names(names: Vec<String>) -> (r: Vec<String>)
    ensures
        strictly_sorted(texts(r@)),
        same_texts(texts(r@), texts(names@)),
{
    let ghost all = texts(names@);
    let mut out: Vec<String> = Vec::new();
    let mut i: usize = 0;
    assert(texts(out@) =~= all.take(0));
    while i < names.len()
        invariant
            i <= names.len(),
            all == texts(names@),
            strictly_sorted(texts(out@)),
            same_texts(texts(out@), all.take(i as int)),
        decreases names.len() - i,
    {
        let ghost before = texts(out@);
        let ghost name = all[i as int];
        let (at, there) = place(&out, names[i].as_str());
        if !there {
            let copy = names[i].clone();
            assert(copy@ == name);
            out.insert(at, copy);
            assert(texts(out@) == before.insert(at as int, name));
        }
        proof {
            lemma_take_push(all, i as int);
            let after = texts(out@);
            assert forall|t: Seq<char>| after.contains(t) == all.take(i + 1).contains(t) by {
                lemma_contains_push(all.take(i as int), name, t);
                if there {
                    assert(before.contains(before[at as int]));
                } else {
                    lemma_contains_insert(before, at as int, name, t);
                }
            }
        }
        i = i + 1;
    }
    assert(all.take(all.len() as int) == all);
    out
}

proof fn lemma_contains_push<A>(s: Seq<A>, x: A, t: A)
    ensures
        s.push(x).contains(t) == (s.contains(t) || t == x),
{
    assert(s.push(x)[s.len() as int] == x);
    if s.contains(t) {
        let k = choose|k: int| 0 <= k < s.len() && s[k] == t;
        assert(s.push(x)[k] == t);
    }
}

proof fn lemma_contains_insert<A>(s: Seq<A>, at: int, x: A, t: A)
    requires
        0 <= at <= s.len(),
    ensures
        s.insert(at, x).contains(t) == (s.contains(t) || t == x),
{
    let after = s.insert(at, x);
    assert(after[at] == x);
    if s.contains(t) {
        let k = choose|k: int| 0 <= k < s.len() && s[k] == t;
        assert(after[if k < at { k } else { k + 1 }] == t);
    }
    if after.contains(t) && t != x {
        let k = choose|k: int| 0 <= k < after.len() && after[k] == t;
        assert(s[if k < at { k } else { k - 1 }] == t);
    }
}

/// Lists the processes anew: afterwards the list holds the names of all processes there are
/// now, in order, each of them once. Gives those of them that the picker shows under the filter.
pub fn refresh_picker(all_processes: &mut Vec<String>, filter: &str) -> (r: Vec<String>)
    ensures
        exists|listing: Listing|
            same_texts(texts(final(all_processes)@), #[trigger] listing@),
        strictly_sorted(texts(final(all_processes)@)),
        texts(r@) == shown_names(texts(final(all_processes)@), filter@),
        filter@.len() == 0 ==> texts(r@) == texts(final(all_processes)@),
{
    let listing = process_names();
    let ghost listed = listing;
    let r = relist(all_processes, listing.into_names(), filter);
    assert(same_texts(texts(all_processes@), listed@));
    r
}

/// Whether the picker shows a name, given the lowercase forms of the filter and of the name.
pub open spec fn shows(filter: Seq<char>, name: Seq<char>) -> bool {
    filter.len() == 0 || contains_text(name, filter)
}

/// The names that are left under a filter, in their order.
pub open spec fn shown_names(names: Seq<Seq<char>>, filter: Seq<char>) -> Seq<Seq<char>> {
    names.filter(|n: Seq<char>| shows(lowercase(filter), lowercase(n)))
}

/// Whether a name passes a filter, both given in lowercase.
pub fn passes(filter: &str, name: &str) -> (r: bool)
    ensures
        r == shows(filter@, name@),
{
    filter.is_empty() || contains(name, filter)
}

/// The names that the picker shows under a filter.
pub fn populate_picker_list(names: &Vec<String>, filter: &str) -> (r: Vec<String>)
    ensures
        texts(r@) == shown_names(texts(names@), filter@),
        filter@.len() == 0 ==> texts(r@) == texts(names@),
{
    let ghost all = texts(names@);
    let ghost keep = |n: Seq<char>| shows(lowercase(filter@), lowercase(n));
    let f = to_lowercase(filter);
    let mut out: Vec<String> = Vec::new();
    let mut i: usize = 0;
    reveal(Seq::filter);
    assert(texts(out@) == all.take(0).filter(keep));
    while i < names.len()
        invariant
            i <= names.len(),
            all == texts(names@),
            keep == (|n: Seq<char>| shows(lowercase(filter@), lowercase(n))),
            f@ == lowercase(filter@),
            filter@.len() == 0 ==> f@.len() == 0,
            texts(out@) == all.take(i as int).filter(keep),
            filter@.len() == 0 ==> texts(out@) == all.take(i as int),
        decreases names.len() - i,
    {
        proof {
            lemma_take_push(all, i as int);
            lemma_filter_push(all.take(i as int), all[i as int], keep);
        }
        let low = to_lowercase(names[i].as_str());
        if passes(f.as_str(), low.as_str()) {
            let copy = names[i].clone();
            proof {
                lemma_map_push(out@, copy, |s: String| s@);
            }
            out.push(copy);
        }
        i = i + 1;
    }
    assert(all.take(all.len() as int) == all);
    out
}

/// Replaces the list by these names, in order, each of them once, and gives those that the
/// picker shows under the filter. Nothing of the earlier list is left.
pub fn relist(all_processes: &mut Vec<String>, names: Vec<String>, filter: &str) -> (r: Vec<
    String,
>)
    ensures
        strictly_sorted(texts(final(all_processes)@)),
        same_texts(texts(final(all_processes)@), texts(names@)),
        texts(r@) == shown_names(texts(final(all_processes)@), filter@),
        filter@.len() == 0 ==> texts(r@) == texts(final(all_processes)@),
{
    *all_processes = sorted_names(names);
    populate_picker_list(all_processes, filter)
}

/// How many games run does not depend on the order in which the processes are listed, nor on
/// how many processes a game has.
pub proof fn law_running_by_names(games: Seq<Game>, a: Seq<Seq<char>>, b: Seq<Seq<char>>)
    requires
        same_texts(a, b),
    ensures
        running(games, a) == running(games, b),
{
    let f = |g: Game| runs(a, g);
    let h = |g: Game| runs(b, g);
    assert forall|g: Game| runs(a, g) == runs(b, g) by {
        if runs(a, g) {
            let i = choose|i: int|
                0 <= i < a.len() && same_ignoring_case(#[trigger] a[i], g.exe_name);
            assert(a.contains(a[i]));
            let j = choose|j: int| 0 <= j < b.len() && b[j] == a[i];
            assert(same_ignoring_case(b[j], g.exe_name));
        }
        if runs(b, g) {
            let i = choose|i: int|
                0 <= i < b.len() && same_ignoring_case(#[trigger] b[i], g.exe_name);
            assert(b.contains(b[i]));
            let j = choose|j: int| 0 <= j < a.len() && a[j] == b[i];
            assert(same_ignoring_case(a[j], g.exe_name));
        }
    }
    assert(f =~= h);
}

/// The filter only leaves names out: those that are left stay in order, each of them once,
/// and are among the names there were.
pub proof fn law_filter_keeps_order(names: Seq<Seq<char>>, filter: Seq<char>)
    requires
        strictly_sorted(names),
    ensures
        strictly_sorted(shown_names(names, filter)),
        forall|t: Seq<char>| #[trigger]
            shown_names(names, filter).contains(t) ==> names.contains(t),
    decreases names.len(),
{
    let keep = |n: Seq<char>| shows(lowercase(filter), lowercase(n));
    reveal(Seq::filter);
    if names.len() > 0 {
        let rest = names.drop_last();
        let last = names.last();
        law_filter_keeps_order(rest, filter);
        lemma_filter_push(rest, last, keep);
        assert(rest.push(last) == names);
        let left = shown_names(rest, filter);
        let after = shown_names(names, filter);
        assert forall|t: Seq<char>| #[trigger] after.contains(t) implies names.contains(t) by {
            lemma_contains_push(rest, last, t);
            lemma_contains_push(left, last, t);
        }
        assert forall|i: int, j: int| 0 <= i < j < after.len() implies precedes(
            #[trigger] after[i],
            #[trigger] after[j],
        ) by {
            if j >= left.len() {
                assert(left.contains(left[i]));
                let k = choose|k: int| 0 <= k < rest.len() && rest[k] == left[i];
                assert(precedes(names[k], names[names.len() - 1]));
            } else {
                assert(precedes(left[i], left[j]));
            }
        }
    }
}

/// Sorting without repetition has one result only: the list does not depend on the order in
/// which the names came, nor on how often each of them came.
pub proof fn law_sorted_names_unique(a: Seq<Seq<char>>, b: Seq<Seq<char>>)
    requires
        strictly_sorted(a),
        strictly_sorted(b),
        same_texts(a, b),
    ensures
        a == b,
    decreases a.len(),
{
    if a.len() == 0 {
        if b.len() > 0 {
            assert(b.contains(b[0]));
        }
    } else if b.len() == 0 {
        assert(a.contains(a[0]));
    } else {
        let x = a.last();
        let y = b.last();
        assert(a.contains(x) && b.contains(y));
        let i = choose|i: int| 0 <= i < b.len() && b[i] == x;
        let j = choose|j: int| 0 <= j < a.len() && a[j] == y;
        if x != y {
            assert(precedes(b[i], b[b.len() - 1]));
            assert(precedes(a[j], a[a.len() - 1]));
            law_precedes_total(x, y);
        }
        let c = a.drop_last();
        let d = b.drop_last();
        assert forall|t: Seq<char>| c.contains(t) == d.contains(t) by {
            lemma_contains_push(c, x, t);
            lemma_contains_push(d, y, t);
            assert(c.push(x) == a && d.push(y) == b);
            if c.contains(t) && t == x {
                let k = choose|k: int| 0 <= k < c.len() && c[k] == t;
                assert(precedes(a[k], a[a.len() - 1]));
                lemma_precedes_excludes(x, x);
            }
            if d.contains(t) && t == y {
                let k = choose|k: int| 0 <= k < d.len() && d[k] == t;
                assert(precedes(b[k], b[b.len() - 1]));
                lemma_precedes_excludes(y, y);
            }
        }
        law_sorted_names_unique(c, d);
        assert(a == c.push(x) && b == d.push(y));
    }
}

/// A game is counted once exactly where one of the processes bears its name, whatever the case.
pub proof fn law_each_running_game_counts(
    games: Seq<Game>,
    g: Game,
    processes: Seq<Seq<char>>,
    i: int,
)
    ensures
        0 <= i < processes.len() && same_ignoring_case(processes[i], g.exe_name) ==> running(
            games.push(g),
            processes,
        ) == running(games, processes) + 1,
        (forall|k: int|
            0 <= k < processes.len() ==> !same_ignoring_case(
                #[trigger] processes[k],
                g.exe_name,
            )) ==> running(games.push(g), processes) == running(games, processes),
        running(Seq::empty(), processes) == 0,
{
    lemma_filter_push(games, g, |g: Game| runs(processes, g));
    reveal(Seq::filter);
    assert(Seq::<Game>::empty().filter(|g: Game| runs(processes, g)).len() == 0);
}

/// A watched game among the processes is noticed.
pub proof fn law_running_game_is_noticed(
    games: Seq<Game>,
    processes: Seq<Seq<char>>,
    i: int,
    k: int,
)
    requires
        0 <= i < games.len(),
        0 <= k < processes.len(),
        same_ignoring_case(processes[k], games[i].exe_name),
    ensures
        running(games, processes) > 0,
    decreases games.len(),
{
    let keep = |g: Game| runs(processes, g);
    let rest = games.drop_last();
    lemma_filter_push(rest, games.last(), keep);
    assert(rest.push(games.last()) == games);
    assert(runs(processes, games[i]));
    if i < games.len() - 1 {
        law_running_game_is_noticed(rest, processes, i, k);
    }
}

/// A name is left under a filter exactly where the filter is empty or stands somewhere in the
/// name, both taken in lowercase.
pub proof fn law_filter_shows_matches(
    names: Seq<Seq<char>>,
    name: Seq<char>,
    filter: Seq<char>,
    a: Seq<char>,
    b: Seq<char>,
)
    ensures
        lowercase(filter).len() == 0 || lowercase(name) == a + lowercase(filter) + b
            ==> shown_names(names.push(name), filter) == shown_names(names, filter).push(name),
        lowercase(filter).len() > 0 && (forall|x: Seq<char>, y: Seq<char>|
            lowercase(name) != #[trigger] (x + lowercase(filter) + y)) ==> shown_names(
            names.push(name),
            filter,
        ) == shown_names(names, filter),
        shown_names(Seq::empty(), filter).len() == 0,
{
    let f = lowercase(filter);
    lemma_filter_push(names, name, |n: Seq<char>| shows(lowercase(filter), lowercase(n)));
    law_contains_pieces(a, f, b, lowercase(name));
    reveal(Seq::filter);
    assert(Seq::<Seq<char>>::empty().filter(
        |n: Seq<char>| shows(lowercase(filter), lowercase(n)),
    ).len() == 0);
}

/// In a sorted list an earlier name comes before a later one, and lists hold the same texts where
/// each text of one stands somewhere in the other.
pub proof fn law_sorted_means_in_order(
    list: Seq<Seq<char>>,
    other: Seq<Seq<char>>,
    i: int,
    j: int,
)
    ensures
        strictly_sorted(list) && 0 <= i < j < list.len() ==> precedes(list[i], list[j]),
        same_texts(list, other) && 0 <= i < list.len() ==> other.contains(list[i]),
        same_texts(list, other) && 0 <= i < other.len() ==> list.contains(other[i]),
{
    if 0 <= i < list.len() {
        assert(list.contains(list[i]));
    }
    if 0 <= i < other.len() {
        assert(other.contains(other[i]));
    }
}

} // verus!
