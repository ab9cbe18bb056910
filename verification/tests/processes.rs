use hdrify::config::{Config, GameEntry};
use hdrify::processes::{
    count_running, count_running_games, passes, populate_picker_list, refresh_picker, relist,
    sorted_names,
};

fn list(names: &[&str]) -> Vec<String> {
    names.iter().map(|s| s.to_string()).collect()
}

fn config(exes: &[&str]) -> Config {
    let games = exes
        .iter()
        .map(|e| GameEntry { display_name: e.to_string(), exe_name: e.to_string() })
        .collect();
    Config { games, restore_on_exit: false }
}

#[test]
fn games_are_counted_not_processes() {
    let c = config(&["a.exe", "b.exe", "c.exe"]);
    assert_eq!(count_running(&c, &list(&["A.EXE", "a.exe", "x.exe", "C.exe"])), 2);
    assert_eq!(count_running(&c, &list(&["C.exe", "x.exe", "a.exe"])), 2);
    assert_eq!(count_running(&c, &list(&[])), 0);
    assert_eq!(count_running(&config(&[]), &list(&["a.exe"])), 0);
}

#[test]
fn nothing_watched_nothing_runs() {
    assert_eq!(count_running_games(&config(&[])), 0);
    assert_eq!(count_running_games(&config(&["no such process \u{1f3ae}.exe"])), 0);
}

#[test]
fn a_running_process_is_counted() {
    let mut names = vec![];
    refresh_picker(&mut names, "");
    assert!(!names.is_empty());
    let me = names[0].to_ascii_uppercase();
    // Processes may end at any time, so the whole list is watched.
    let all: Vec<&str> = names.iter().map(|s| s.as_str()).collect();
    assert!(count_running_games(&config(&all)) >= 1);
    assert!(count_running(&config(&[me.as_str()]), &names) >= 1);
}

#[test]
fn picker_names_are_sorted_and_unique() {
    assert_eq!(
        sorted_names(list(&["b", "a", "b", "B", "", "\u{e4}", "a"])),
        ["", "B", "a", "b", "\u{e4}"]
    );
    assert_eq!(sorted_names(list(&["c", "b", "a"])), sorted_names(list(&["a", "b", "c", "b"])));
    assert!(sorted_names(vec![]).is_empty());
    let mut names = vec![];
    refresh_picker(&mut names, "");
    let listed = names.clone();
    names.sort_unstable();
    names.dedup();
    assert_eq!(names, listed);
}

#[test]
fn refreshing_replaces_the_list() {
    let mut all = list(&["z gone", "a gone"]);
    assert_eq!(relist(&mut all, list(&["b.exe", "Ab.exe", "c.exe", "b.exe"]), "B."), ["Ab.exe", "b.exe"]);
    assert_eq!(all, ["Ab.exe", "b.exe", "c.exe"]);
    assert_eq!(relist(&mut all, list(&["d", "c"]), ""), ["c", "d"]);
    assert_eq!(all, ["c", "d"]);
    let gone = "no such process \u{1f3ae}";
    all = list(&[gone]);
    assert!(refresh_picker(&mut all, gone).is_empty());
    assert!(!all.is_empty() && !all.contains(&gone.to_string()));
    assert_eq!(refresh_picker(&mut all, ""), all);
}

#[test]
fn filter_ignores_case() {
    let names = list(&["Game.exe", "Steam.exe", "game2", "\u{c4}pfel.exe"]);
    assert_eq!(populate_picker_list(&names, "GAME"), ["Game.exe", "game2"]);
    assert_eq!(populate_picker_list(&names, ".EXE"), ["Game.exe", "Steam.exe", "\u{c4}pfel.exe"]);
    assert_eq!(populate_picker_list(&names, "\u{e4}PF"), ["\u{c4}pfel.exe"]);
    assert_eq!(populate_picker_list(&names, ""), names);
    assert!(populate_picker_list(&names, "nothing").is_empty());
}

#[test]
fn filter_on_lowercase_forms() {
    assert!(passes("", "x"));
    assert!(passes("am", "game"));
    assert!(!passes("AM", "game"));
    assert!(!passes("games", "game"));
}
