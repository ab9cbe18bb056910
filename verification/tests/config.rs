use hdrify::config::{Config, FileOp, GameEntry};
use std::path::PathBuf;

fn game(display: &str, exe: &str) -> GameEntry {
    GameEntry { display_name: display.to_string(), exe_name: exe.to_string() }
}

fn names(config: &Config) -> Vec<String> {
    config.games.iter().map(|g| g.exe_name.clone()).collect()
}

#[test]
fn settings_file_below_the_data_directory() {
    let root = PathBuf::from("C:\\Users\\Alice\\AppData\\Local");
    let path = Config::path_under(Some(root.clone()));
    assert_eq!(path.root, Some(root));
    assert_eq!(path.parts, ["hdrify", "config.json"]);
    let path = Config::path_under(None);
    assert_eq!(path.root, None);
    assert_eq!(path.parts, [".", "hdrify", "config.json"]);
}

#[test]
fn settings_file_of_this_user() {
    let path = Config::path();
    assert_eq!(path.root, dirs::data_local_dir());
    assert_eq!(path.parts[path.parts.len() - 2..], ["hdrify", "config.json"]);
}

#[test]
fn stored_settings_or_defaults() {
    let stored = Config { games: vec![game("A", "a.exe")], restore_on_exit: true };
    let loaded = Config::load(Some(stored));
    assert_eq!(names(&loaded), ["a.exe"]);
    assert!(loaded.restore_on_exit);
    let fresh = Config::load(None);
    assert!(fresh.games.is_empty());
    assert!(!fresh.restore_on_exit);
    let default = Config::default();
    assert!(default.games.is_empty());
    assert!(!default.restore_on_exit);
}

#[test]
fn saving_makes_the_directory_first() {
    let plan = Config::save_under(Some(PathBuf::from("d")), Some("{}".to_string()));
    assert_eq!(plan.root, Some(PathBuf::from("d")));
    assert_eq!(plan.ops.len(), 2);
    assert!(matches!(&plan.ops[0], FileOp::CreateDirAll(dir) if *dir == ["hdrify"]));
    assert!(matches!(
        &plan.ops[1],
        FileOp::Write(file, text) if *file == ["hdrify", "config.json"] && text == "{}"
    ));
}

#[test]
fn saving_without_a_text_writes_nothing() {
    let plan = Config::save_under(None, None);
    assert_eq!(plan.root, None);
    assert_eq!(plan.ops.len(), 1);
    assert!(matches!(&plan.ops[0], FileOp::CreateDirAll(dir) if *dir == [".", "hdrify"]));
}

#[test]
fn saving_goes_where_loading_reads() {
    let path = Config::path();
    let plan = Config::save(Some("x".to_string()));
    assert_eq!(plan.root, path.root);
    assert!(matches!(
        &plan.ops[1],
        FileOp::Write(file, text) if *file == path.parts && text == "x"
    ));
}

#[test]
fn games_are_known_by_any_spelling() {
    let mut config = Config::default();
    assert!(config.add_game(game("Game", "Game.exe")));
    assert!(config.watches("GAME.EXE"));
    assert!(config.watches("game.exe"));
    assert!(!config.watches("game"));
    assert!(!config.watches(""));
}

#[test]
fn a_game_is_added_once() {
    let mut config = Config::default();
    assert!(config.add_game(game("One", "one.exe")));
    assert!(!config.add_game(game("Other", "ONE.exe")));
    assert!(config.add_game(game("Two", "two.exe")));
    assert_eq!(names(&config), ["one.exe", "two.exe"]);
    assert_eq!(config.games[0].display_name, "One");
}

#[test]
fn only_listed_games_are_removed() {
    let mut config = Config::default();
    config.add_game(game("One", "one.exe"));
    config.add_game(game("Two", "two.exe"));
    config.add_game(game("Three", "three.exe"));
    assert!(!config.remove_game(3));
    assert!(config.remove_game(1));
    assert_eq!(names(&config), ["one.exe", "three.exe"]);
    assert!(!config.watches("two.exe"));
    assert!(config.watches("three.exe"));
    assert!(!config.remove_game(usize::MAX));
}

#[test]
fn copies_are_equal() {
    let mut config = Config::default();
    config.add_game(game("One", "one.exe"));
    config.restore_on_exit = true;
    let copy = config.clone();
    assert_eq!(names(&copy), names(&config));
    assert_eq!(copy.games[0].display_name, "One");
    assert!(copy.restore_on_exit);
}
