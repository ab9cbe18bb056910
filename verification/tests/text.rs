use hdrify::text::{contains, decimal, eq_ignore_ascii_case, rank, strip_suffix, Rank};

#[test]
fn names_match_in_any_ascii_case() {
    assert!(eq_ignore_ascii_case("Game.EXE", "gAME.exe"));
    assert!(!eq_ignore_ascii_case("game.exe", "game"));
    assert!(!eq_ignore_ascii_case("\u{c4}.exe", "\u{e4}.exe"));
    assert!(!eq_ignore_ascii_case("@", "`"));
    assert!(!eq_ignore_ascii_case("[", "{"));
}

#[test]
fn counts_are_written_in_base_ten() {
    assert_eq!(decimal(0), "0");
    assert_eq!(decimal(9), "9");
    assert_eq!(decimal(10), "10");
    assert_eq!(decimal(1205), "1205");
    assert_eq!(decimal(usize::MAX), format!("{}", usize::MAX));
}

#[test]
fn search_finds_every_place() {
    assert!(contains("steam.exe", "steam"));
    assert!(contains("steam.exe", ".exe"));
    assert!(contains("steam.exe", "am.e"));
    assert!(contains("steam.exe", ""));
    assert!(contains("", ""));
    assert!(!contains("steam.exe", "Steam"));
    assert!(!contains("a", "ab"));
}

#[test]
fn suffixes_come_off_once_and_only_at_the_end() {
    assert_eq!(strip_suffix("game.exe", ".exe"), "game");
    assert_eq!(strip_suffix("game.exe.exe", ".exe"), "game.exe");
    assert_eq!(strip_suffix("game.EXE", ".exe"), "game.EXE");
    assert_eq!(strip_suffix(".exe", ".exe"), "");
    assert_eq!(strip_suffix("exe", ".exe"), "exe");
    assert_eq!(strip_suffix("\u{fc}ber.exe", ".exe"), "\u{fc}ber");
}

#[test]
fn order_is_that_of_the_bytes() {
    let words = ["", "a", "aa", "b", "B", "\u{e4}", "\u{ffff}", "\u{10000}", "ab\u{1f600}", "ab"];
    for a in words {
        for b in words {
            let expected = if a < b {
                Rank::Before
            } else if a == b {
                Rank::Same
            } else {
                Rank::After
            };
            assert_eq!(rank(a, b), expected);
        }
    }
}
