//! The watched games and the settings, and where they are kept.

use crate::machine::{local_data_dir, DataDir};
use crate::seqs::{lemma_map_push, lemma_take_push};
use crate::text::{eq_ignore_ascii_case, law_same_ignoring_case_equivalence, same_ignoring_case};
use std::path::PathBuf;
use vstd::prelude::*;

verus! {

/// One watched game.
#[derive(Debug)]
pub struct GameEntry {
    pub display_name: String,
    /// The exe filename only, e.g. "game.exe". Matched case-insensitively.
    pub exe_name: String,
}

/// What is remembered between runs.
#[derive(Debug)]
pub struct Config {
    pub games: Vec<GameEntry>,
    /// If true, HDR is restored to its pre-game state when the last watched game exits.
    pub restore_on_exit: bool,
}

/// A watched game as text.
pub struct Game {
    pub display_name: Seq<char>,
    pub exe_name: Seq<char>,
}

/// The settings as text and flags.
#[verifier::ext_equal]
pub struct Settings {
    pub games: Seq<Game>,
    pub restore_on_exit: bool,
}

impl View for GameEntry {
    type V = Game;

    open spec fn view(&self) -> Game {
        Game { display_name: self.display_name@, exe_name: self.exe_name@ }
    }
}

impl View for Config {
    type V = Settings;

    open spec fn view(&self) -> Settings {
        Settings {
            games: self.games@.map_values(|g: GameEntry| g@),
            restore_on_exit: self.restore_on_exit,
        }
    }
}

/// The texts of a list of strings.
pub open spec fn texts(v: Seq<String>) -> Seq<Seq<char>> {
    v.map_values(|s: String| s@)
}

/// Whether some game of the list goes by this exe name.
pub open spec fn watches(games: Seq<Game>, exe: Seq<char>) -> bool {
    exists|i: int|
        0 <= i < games.len() && same_ignoring_case((#[trigger] games[i]).exe_name, exe)
}

/// No two games of the list go by the same exe name.
pub open spec fn unique_exes(games: Seq<Game>) -> bool {
    forall|i: int, j: int|
        0 <= i < games.len() && 0 <= j < games.len() && i != j ==> !same_ignoring_case(
            (#[trigger] games[i]).exe_name,
            (#[trigger] games[j]).exe_name,
        )
}

/// The list with a game added at its end, unless the game is already there.
pub open spec fn with_game(games: Seq<Game>, g: Game) -> Seq<Game> {
    if watches(games, g.exe_name) {
        games
    } else {
        games.push(g)
    }
}

/// The list without its game number `i`, where there is one.
pub open spec fn without_game(games: Seq<Game>, i: int) -> Seq<Game> {
    if 0 <= i < games.len() {
        games.remove(i)
    } else {
        games
    }
}

/// Whether one of the processes goes by the exe name of the game.
pub open spec fn runs(processes: Seq<Seq<char>>, g: Game) -> bool {
    exists|i: int|
        0 <= i < processes.len() && same_ignoring_case(#[trigger] processes[i], g.exe_name)
}

/// How many games of the list have a process.
pub open spec fn running(games: Seq<Game>, processes: Seq<Seq<char>>) -> nat {
    games.filter(|g: Game| runs(processes, g)).len()
}

/// The path of the settings file below its root, one part per level. Without a root, it is
/// below the current directory.
pub open spec fn path_parts(has_root: bool) -> Seq<Seq<char>> {
    if has_root {
        seq!["hdrify"@, "config.json"@]
    } else {
        seq!["."@, "hdrify"@, "config.json"@]
    }
}

/// A path of the platform, as `std::path::PathBuf` holds it. It is handed on as it is.
#[verifier::external_type_specification]
#[verifier::external_body]
pub struct ExPathBuf(std::path::PathBuf);

/// Where the settings file is: the parts, one after another, below the root.
#[derive(Debug)]
pub struct ConfigPath {
    pub root: Option<PathBuf>,
    pub parts: Vec<String>,
}

/// A change to the file system, on a path below a root.
#[derive(Debug)]
pub enum FileOp {
    /// Make this directory and those above it, where they are missing.
    CreateDirAll(Vec<String>),
    /// Give this file this text.
    Write(Vec<String>, String),
}

pub enum FileStep {
    CreateDirAll(Seq<Seq<char>>),
    Write(Seq<Seq<char>>, Seq<char>),
}

impl View for FileOp {
    type V = FileStep;

    open spec fn view(&self) -> FileStep {
        match self {
            FileOp::CreateDirAll(dir) => FileStep::CreateDirAll(texts(dir@)),
            FileOp::Write(file, text) => FileStep::Write(texts(file@), text@),
        }
    }
}

/// What it takes to save: these changes, one after another, below the root.
#[derive(Debug)]
pub struct SavePlan {
    pub root: Option<PathBuf>,
    pub ops: Vec<FileOp>,
}

/// What it takes to save, as text.
#[verifier::ext_equal]
pub struct SaveModel {
    pub root: Option<PathBuf>,
    pub steps: Seq<FileStep>,
}

impl View for SavePlan {
    type V = SaveModel;

    open spec fn view(&self) -> SaveModel {
        SaveModel { root: self.root, steps: self.ops@.map_values(|op: FileOp| op@) }
    }
}

/// Saving: the directory of the file first, then the text, where there is one.
pub open spec fn save_steps(path: Seq<Seq<char>>, json: Option<Seq<char>>) -> Seq<FileStep> {
    let made = seq![FileStep::CreateDirAll(path.drop_last())];
    match json {
        Some(text) => made.push(FileStep::Write(path, text)),
        None => made,
    }
}

pub open spec fn opt_text(s: Option<String>) -> Option<Seq<char>> {
    match s {
        Some(s) => Some(s@),
        None => None,
    }
}

fn copied(parts: &Vec<String>, n: usize) -> (r: Vec<String>)
    requires
        n <= parts.len(),
    ensures
        texts(r@) == texts(parts@).take(n as int),
{
    let mut out: Vec<String> = Vec::new();
    let mut i: usize = 0;
    while i < n
        invariant
            i <= n <= parts.len(),
            texts(out@) == texts(parts@).take(i as int),
        decreases n - i,
    {
        let part = parts[i].clone();
        proof {
            lemma_map_push(out@, part, |s: String| s@);
            lemma_take_push(texts(parts@), i as int);
        }
        out.push(part);
        i = i + 1;
    }
    out
}

impl Clone for GameEntry {
    fn clone(&self) -> (r: GameEntry)
        ensures
            r@ == self@,
    {
        GameEntry { display_name: self.display_name.clone(), exe_name: self.exe_name.clone() }
    }
}

impl Clone for Config {
    fn clone(&self) -> (r: Config)
        ensures
            r@ == self@,
    {
        let mut games: Vec<GameEntry> = Vec::new();
        let mut i: usize = 0;
        while i < self.games.len()
            invariant
                i <= self.games.len(),
                games@.map_values(|g: GameEntry| g@) == self@.games.take(i as int),
            decreases self.games.len() - i,
        {
            let game = self.games[i].clone();
            proof {
                lemma_map_push(games@, game, |g: GameEntry| g@);
                lemma_take_push(self@.games, i as int);
            }
            games.push(game);
            i = i + 1;
        }
        assert(self@.games.take(self@.games.len() as int) == self@.games);
        Config { games, restore_on_exit: self.restore_on_exit }
    }
}

impl Default for Config {
    /// No games, and HDR is left on when a game exits.
    fn default() -> (r: Config)
        ensures
            r@.games == Seq::<Game>::empty(),
            !r.restore_on_exit,
    {
        Config { games: Vec::new(), restore_on_exit: false }
    }
}

impl Config {
    /// The path of the settings file below a root; the current directory serves where there
    /// is none.
    pub fn path_under(root: Option<PathBuf>) -> (r: ConfigPath)
        ensures
            r.root == root,
            texts(r.parts@) == path_parts(root is Some),
    {
        let mut parts: Vec<String> = Vec::new();
        if root.is_none() {
            parts.push(".".to_owned());
        }
        parts.push("hdrify".to_owned());
        parts.push("config.json".to_owned());
        assert(texts(parts@) == path_parts(root is Some));
        ConfigPath { root, parts }
    }

    /// The path of the settings file of this user.
    pub fn path() -> (r: ConfigPath)
        ensures
            exists|dir: DataDir| r.root == #[trigger] dir@,
            texts(r.parts@) == path_parts(r.root is Some),
    {
        let dir = local_data_dir();
        let ghost found = dir;
        let r = Self::path_under(dir.into_root());
        assert(r.root == found@);
        r
    }

    /// The settings to start with: those that were stored, or the defaults where none could
    /// be read.
    pub fn load(stored: Option<Config>) -> (r: Config)
        ensures
            match stored {
                Some(config) => r == config,
                None => r@.games == Seq::<Game>::empty() && !r.restore_on_exit,
            },
    {
        match stored {
            Some(config) => config,
            None => Config::default(),
        }
    }

    /// What it takes to put the text of the settings into the file below this root. Without a
    /// text, only the directory is made.
    pub fn save_under(root: Option<PathBuf>, json: Option<String>) -> (r: SavePlan)
        ensures
            r@ == (SaveModel {
                root,
                steps: save_steps(path_parts(root is Some), opt_text(json)),
            }),
    {
        let path = Self::path_under(root);
        let ghost p = texts(path.parts@);
        let ghost j = opt_text(json);
        assert(path.parts@.len() == p.len());
        let dir = copied(&path.parts, path.parts.len() - 1);
        assert(texts(dir@) == p.drop_last());
        let mut ops: Vec<FileOp> = Vec::new();
        ops.push(FileOp::CreateDirAll(dir));
        if let Some(text) = json {
            ops.push(FileOp::Write(path.parts, text));
        }
        assert(ops@.map_values(|op: FileOp| op@) == save_steps(p, j));
        SavePlan { root: path.root, ops }
    }

    /// What it takes to put the text of the settings where `path` says.
    pub fn save(json: Option<String>) -> (r: SavePlan)
        ensures
            exists|dir: DataDir| r@.root == #[trigger] dir@,
            r@.steps == save_steps(path_parts(r@.root is Some), opt_text(json)),
    {
        let dir = local_data_dir();
        let ghost found = dir;
        let r = Self::save_under(dir.into_root(), json);
        assert(r@.root == found@);
        r
    }

    /// Whether a process of this name is one of the watched games.
    pub fn watches(&self, exe: &str) -> (r: bool)
        ensures
            r == watches(self@.games, exe@),
    {
        let mut i: usize = 0;
        while i < self.games.len()
            invariant
                i <= self.games.len(),
                forall|j: int|
                    0 <= j < i ==> !same_ignoring_case(
                        (#[trigger] self@.games[j]).exe_name,
                        exe@,
                    ),
            decreases self.games.len() - i,
        {
            if eq_ignore_ascii_case(self.games[i].exe_name.as_str(), exe) {
                assert(same_ignoring_case(self@.games[i as int].exe_name, exe@));
                return true;
            }
            i = i + 1;
        }
        false
    }

    /// Adds a game, unless one with the same exe name is there already. Says whether the
    /// settings changed.
    pub fn add_game(&mut self, entry: GameEntry) -> (changed: bool)
        ensures
            final(self)@ == (Settings {
                games: with_game(old(self)@.games, entry@),
                ..old(self)@
            }),
            changed == !watches(old(self)@.games, entry@.exe_name),
    {
        if self.watches(entry.exe_name.as_str()) {
            false
        } else {
            self.games.push(entry);
            assert(self@.games == old(self)@.games.push(entry@));
            true
        }
    }

    /// Removes game number `i`, where there is one. Says whether the settings changed.
    pub fn remove_game(&mut self, i: usize) -> (changed: bool)
        ensures
            final(self)@ == (Settings {
                games: without_game(old(self)@.games, i as int),
                ..old(self)@
            }),
            changed == (i < old(self)@.games.len()),
    {
        if i < self.games.len() {
            self.games.remove(i);
            assert(self@.games == old(self)@.games.remove(i as int));
            true
        } else {
            false
        }
    }
}

/// Adding a game keeps the exe names distinct, and the game is watched from then on, under
/// any spelling of its case.
pub proof fn law_add_game(games: Seq<Game>, g: Game, spelling: Seq<char>)
    requires
        unique_exes(games),
        same_ignoring_case(g.exe_name, spelling),
    ensures
        unique_exes(with_game(games, g)),
        watches(with_game(games, g), spelling),
{
    let after = with_game(games, g);
    if watches(games, g.exe_name) {
        let i = choose|i: int|
            0 <= i < games.len() && same_ignoring_case(
                (#[trigger] games[i]).exe_name,
                g.exe_name,
            );
        law_same_ignoring_case_equivalence(games[i].exe_name, g.exe_name, spelling);
        assert(same_ignoring_case(after[i].exe_name, spelling));
    } else {
        assert(after[games.len() as int] == g);
        assert forall|i: int, j: int|
            0 <= i < after.len() && 0 <= j < after.len() && i != j implies !same_ignoring_case(
            (#[trigger] after[i]).exe_name,
            (#[trigger] after[j]).exe_name,
        ) by {
            law_same_ignoring_case_equivalence(after[i].exe_name, after[j].exe_name, g.exe_name);
            if i < games.len() && j < games.len() {
                assert(after[i] == games[i] && after[j] == games[j]);
            } else if i < games.len() {
                assert(after[i] == games[i]);
            } else {
                assert(after[j] == games[j]);
                law_same_ignoring_case_equivalence(
                    after[j].exe_name,
                    after[i].exe_name,
                    g.exe_name,
                );
            }
        }
    }
}

/// Adding a game a second time changes nothing.
pub proof fn law_add_game_twice(games: Seq<Game>, g: Game, again: Game)
    requires
        same_ignoring_case(g.exe_name, again.exe_name),
    ensures
        with_game(with_game(games, g), again) == with_game(games, g),
{
    let after = with_game(games, g);
    if watches(games, g.exe_name) {
        let i = choose|i: int|
            0 <= i < games.len() && same_ignoring_case(
                (#[trigger] games[i]).exe_name,
                g.exe_name,
            );
        law_same_ignoring_case_equivalence(games[i].exe_name, g.exe_name, again.exe_name);
        assert(same_ignoring_case(after[i].exe_name, again.exe_name));
    } else {
        assert(after[games.len() as int] == g);
        assert(same_ignoring_case(after[games.len() as int].exe_name, again.exe_name));
    }
}

/// Removing a game ends the watch on it, and on no other.
pub proof fn law_remove_game(games: Seq<Game>, i: int, exe: Seq<char>)
    requires
        unique_exes(games),
        0 <= i < games.len(),
    ensures
        unique_exes(without_game(games, i)),
        watches(without_game(games, i), exe) == (watches(games, exe) && !same_ignoring_case(
            games[i].exe_name,
            exe,
        )),
{
    let after = without_game(games, i);
    assert forall|j: int| 0 <= j < after.len() implies #[trigger] after[j] == games[if j < i {
        j
    } else {
        j + 1
    }] by {}
    assert forall|j: int, k: int|
        0 <= j < after.len() && 0 <= k < after.len() && j != k implies !same_ignoring_case(
        (#[trigger] after[j]).exe_name,
        (#[trigger] after[k]).exe_name,
    ) by {
        let a = if j < i { j } else { j + 1 };
        let b = if k < i { k } else { k + 1 };
        assert(after[j] == games[a] && after[k] == games[b]);
    }
    if watches(after, exe) {
        let j = choose|j: int|
            0 <= j < after.len() && same_ignoring_case((#[trigger] after[j]).exe_name, exe);
        let a = if j < i { j } else { j + 1 };
        assert(after[j] == games[a]);
        law_same_ignoring_case_equivalence(games[i].exe_name, exe, games[a].exe_name);
        law_same_ignoring_case_equivalence(games[a].exe_name, exe, games[i].exe_name);
    }
    if watches(games, exe) && !same_ignoring_case(games[i].exe_name, exe) {
        let a = choose|a: int|
            0 <= a < games.len() && same_ignoring_case((#[trigger] games[a]).exe_name, exe);
        let j = if a < i { a } else { a - 1 };
        assert(after[j] == games[a]);
    }
}

/// A list watches what one of its games is called, and nothing else.
pub proof fn law_each_game_is_watched(games: Seq<Game>, g: Game, exe: Seq<char>)
    ensures
        watches(games.push(g), exe) <==> watches(games, exe) || same_ignoring_case(g.exe_name, exe),
        !watches(Seq::empty(), exe),
{
    let after = games.push(g);
    if watches(games, exe) {
        let i = choose|i: int|
            0 <= i < games.len() && same_ignoring_case((#[trigger] games[i]).exe_name, exe);
        assert(after[i] == games[i]);
    }
    assert(after[games.len() as int] == g);
    if watches(after, exe) && !same_ignoring_case(g.exe_name, exe) {
        let i = choose|i: int|
            0 <= i < after.len() && same_ignoring_case((#[trigger] after[i]).exe_name, exe);
        assert(games[i] == after[i]);
    }
}

/// Adding puts a new game at the end and leaves the others where they are; removing closes the
/// gap and leaves the others in order.
pub proof fn law_others_keep_their_order(games: Seq<Game>, g: Game, n: int, k: int)
    ensures
        !watches(games, g.exe_name) ==> with_game(games, g).len() == games.len() + 1 && with_game(
            games,
            g,
        ).last() == g,
        watches(games, g.exe_name) ==> with_game(games, g) == games,
        0 <= k < games.len() ==> with_game(games, g)[k] == games[k],
        0 <= n < games.len() ==> without_game(games, n).len() == games.len() - 1,
        !(0 <= n < games.len()) ==> without_game(games, n) == games,
        0 <= k < n < games.len() ==> without_game(games, n)[k] == games[k],
        0 <= n < k < games.len() ==> without_game(games, n)[k - 1] == games[k],
{
}

/// Saving makes the directory that the file is in, and then writes the whole text to the file
/// that loading reads, or nothing where there is no text.
pub proof fn law_saving_writes_the_file(has_root: bool, text: Seq<char>)
    ensures
        ({
            let file = path_parts(has_root);
            let steps = save_steps(file, Some(text));
            &&& steps.len() == 2
            &&& steps[0] == FileStep::CreateDirAll(file.take(file.len() - 1))
            &&& steps[1] == FileStep::Write(file, text)
            &&& save_steps(file, None) == steps.take(1)
            &&& file[file.len() - 1] == "config.json"@
            &&& file[file.len() - 2] == "hdrify"@
            &&& has_root ==> file.len() == 2
            &&& !has_root ==> file.len() == 3 && file[0] == "."@
        }),
{
    let file = path_parts(has_root);
    assert(file.drop_last() == file.take(file.len() - 1));
    assert(save_steps(file, None) == save_steps(file, Some(text)).take(1));
}

} // verus!
