//! The launcher's data: global settings, the games of the library and their
//! playtime, with a mathematical view of each.

use vstd::prelude::*;
use crate::paths::{paths_equal, same_path};

verus! {

/// The output resolution that gamescope is asked for.
#[derive(Clone, Copy, Debug, PartialEq, Eq, Structural)]
pub struct GamescopeConfig {
    pub output_width: usize,
    pub output_height: usize,
}

/// A point in time: whole seconds since the Unix epoch and the nanoseconds
/// past that second.
#[derive(Clone, Copy, Debug, PartialEq, Eq, Structural)]
pub struct Timestamp {
    pub secs: i64,
    pub nanos: u32,
}

/// Where Proton and umu-launcher are installed.
#[derive(Clone, Debug)]
pub struct Settings {
    pub proton_path: String,
    pub umu_path: String,
}

/// One game of the library.
#[derive(Clone, Debug)]
pub struct Game {
    pub name: String,
    pub cover_path: String,
    pub exe_path: String,
    pub wineprefix_path: String,
    pub extra_args: String,
    pub gamescope_config: Option<GamescopeConfig>,
    pub last_played: Option<Timestamp>,
    pub duration_played: u64,
}

/// Everything the launcher keeps between runs.
#[derive(Clone, Debug)]
pub struct AppData {
    pub games: Vec<Game>,
    pub settings: Settings,
}

/// The view of [`Settings`].
pub struct SettingsView {
    pub proton_path: Seq<char>,
    pub umu_path: Seq<char>,
}

/// The view of [`Game`].
pub struct GameView {
    pub name: Seq<char>,
    pub cover_path: Seq<char>,
    pub exe_path: Seq<char>,
    pub wineprefix_path: Seq<char>,
    pub extra_args: Seq<char>,
    pub gamescope_config: Option<GamescopeConfig>,
    pub last_played: Option<Timestamp>,
    pub duration_played: u64,
}

/// The view of [`AppData`].
pub struct AppDataView {
    pub games: Seq<GameView>,
    pub settings: SettingsView,
}

impl View for Settings {
    type V = SettingsView;

    open spec fn view(&self) -> SettingsView {
        SettingsView { proton_path: self.proton_path@, umu_path: self.umu_path@ }
    }
}

impl View for Game {
    type V = GameView;

    open spec fn view(&self) -> GameView {
        GameView {
            name: self.name@,
            cover_path: self.cover_path@,
            exe_path: self.exe_path@,
            wineprefix_path: self.wineprefix_path@,
            extra_args: self.extra_args@,
            gamescope_config: self.gamescope_config,
            last_played: self.last_played,
            duration_played: self.duration_played,
        }
    }
}

/// The views of a sequence of games.
pub open spec fn games_view(games: Seq<Game>) -> Seq<GameView> {
    games.map_values(|g: Game| g@)
}

impl View for AppData {
    type V = AppDataView;

    open spec fn view(&self) -> AppDataView {
        AppDataView { games: games_view(self.games@), settings: self.settings@ }
    }
}

impl Settings {
    /// Settings made of the two paths as entered.
    pub fn new(proton_path: String, umu_path: String) -> (r: Settings)
        ensures
            r@ == (SettingsView { proton_path: proton_path@, umu_path: umu_path@ }),
    {
        Settings { proton_path, umu_path }
    }

    /// Settings with neither path set.
    pub fn empty() -> (r: Settings)
        ensures
            r@.proton_path.len() == 0,
            r@.umu_path.len() == 0,
    {
        Settings { proton_path: String::new(), umu_path: String::new() }
    }
}

impl AppData {
    /// The data of a first run: no games and no paths set.
    pub fn empty() -> (r: AppData)
        ensures
            r@.games.len() == 0,
            r@.settings.proton_path.len() == 0,
            r@.settings.umu_path.len() == 0,
    {
        AppData { games: Vec::new(), settings: Settings::empty() }
    }
}

/// Whether two optional gamescope configurations are the same.
fn same_gamescope(a: &Option<GamescopeConfig>, b: &Option<GamescopeConfig>) -> (r: bool)
    ensures
        r == (*a == *b),
{
    match (a, b) {
        (Some(x), Some(y)) => x.output_width == y.output_width && x.output_height
            == y.output_height,
        (None, None) => true,
        _ => false,
    }
}

/// Whether two optional timestamps are the same.
fn same_time(a: &Option<Timestamp>, b: &Option<Timestamp>) -> (r: bool)
    ensures
        r == (*a == *b),
{
    match (a, b) {
        (Some(x), Some(y)) => x.secs == y.secs && x.nanos == y.nanos,
        (None, None) => true,
        _ => false,
    }
}

/// Whether two games are equal the way the stored data compares them: the
/// text fields and numbers exactly, the three paths as `Path`s.
pub open spec fn same_game(a: GameView, b: GameView) -> bool {
    &&& a.name == b.name
    &&& same_path(a.cover_path, b.cover_path)
    &&& same_path(a.exe_path, b.exe_path)
    &&& same_path(a.wineprefix_path, b.wineprefix_path)
    &&& a.extra_args == b.extra_args
    &&& a.gamescope_config == b.gamescope_config
    &&& a.last_played == b.last_played
    &&& a.duration_played == b.duration_played
}

impl Game {
    /// Whether two games are equal: names, extra arguments, gamescope
    /// configuration and playtime exactly, paths as `Path`s.
    pub fn same_as(&self, other: &Game) -> (r: bool)
        ensures
            r == same_game(self@, other@),
    {
        let r = self.name == other.name && paths_equal(
            self.cover_path.as_str(),
            other.cover_path.as_str(),
        ) && paths_equal(self.exe_path.as_str(), other.exe_path.as_str()) && paths_equal(
            self.wineprefix_path.as_str(),
            other.wineprefix_path.as_str(),
        ) && self.extra_args == other.extra_args && same_gamescope(
            &self.gamescope_config,
            &other.gamescope_config,
        ) && same_time(&self.last_played, &other.last_played) && self.duration_played
            == other.duration_played;
        r
    }
}

/// The index of the first game of `games` equal to `g` (any value when
/// there is none).
pub open spec fn first_index_of(games: Seq<GameView>, g: GameView) -> int {
    choose|i: int|
        0 <= i < games.len() && same_game(games[i], g) && forall|j: int|
            0 <= j < i ==> !same_game(games[j], g)
}

proof fn lemma_first_index_unique(games: Seq<GameView>, g: GameView, i: int)
    requires
        0 <= i < games.len(),
        same_game(games[i], g),
        forall|j: int| 0 <= j < i ==> !same_game(games[j], g),
    ensures
        first_index_of(games, g) == i,
{
    let k = first_index_of(games, g);
    assert(0 <= k < games.len() && same_game(games[k], g) && forall|j: int|
        0 <= j < k ==> !same_game(games[j], g));
    if k < i {
        assert(!same_game(games[k], g));
    }
    if i < k {
        assert(!same_game(games[i], g));
    }
}

impl AppData {
    /// The index of the first game equal to `game`, if there is one.
    pub fn position_of(&self, game: &Game) -> (r: Option<usize>)
        ensures
            r matches Some(i) ==> i < self@.games.len() && same_game(self@.games[i as int], game@)
                && i == first_index_of(self@.games, game@),
            r is None <==> !holds_game(self@.games, game@),
    {
        let mut i: usize = 0;
        while i < self.games.len()
            invariant
                i <= self.games.len(),
                forall|j: int| 0 <= j < i ==> !same_game(#[trigger] games_view(self.games@)[j], game@),
            decreases self.games.len() - i,
        {
            if self.games[i].same_as(game) {
                proof {
                    let gs = games_view(self.games@);
                    assert(same_game(gs[i as int], game@));
                    lemma_first_index_unique(gs, game@, i as int);
                    assert(same_game(self@.games[i as int], game@));
                }
                return Some(i);
            }
            i = i + 1;
        }
        assert(forall|j: int| 0 <= j < self@.games.len() ==> self@.games[j] == games_view(self.games@)[j]);
        None
    }
}

/// Whether `games` holds a game equal to `g`.
pub open spec fn holds_game(games: Seq<GameView>, g: GameView) -> bool {
    exists|i: int| 0 <= i < games.len() && same_game(#[trigger] games[i], g)
}

/// Putting back at `i` what was taken out at `i` is an update at `i`.
pub proof fn lemma_remove_insert_is_update(s: Seq<GameView>, i: int, x: GameView)
    requires
        0 <= i < s.len(),
    ensures
        s.remove(i).insert(i, x) == s.update(i, x),
{
    assert(s.remove(i).insert(i, x) =~= s.update(i, x));
}

impl AppData {
    /// Takes the game at `i` out of the list.
    pub(crate) fn take_game(&mut self, i: usize) -> (g: Game)
        requires
            i < old(self)@.games.len(),
        ensures
            g@ == old(self)@.games[i as int],
            final(self)@.games == old(self)@.games.remove(i as int),
            final(self)@.settings == old(self)@.settings,
    {
        let ghost before = self.games@;
        let g = self.games.remove(i);
        assert(games_view(self.games@) =~= games_view(before).remove(i as int));
        g
    }

    /// Puts a game into the list at `i`.
    pub(crate) fn put_game(&mut self, i: usize, g: Game)
        requires
            i <= old(self)@.games.len(),
        ensures
            final(self)@.games == old(self)@.games.insert(i as int, g@),
            final(self)@.settings == old(self)@.settings,
    {
        let ghost before = self.games@;
        self.games.insert(i, g);
        assert(games_view(self.games@) =~= games_view(before).insert(i as int, g@));
    }
}

impl PartialEq for Game {
    fn eq(&self, other: &Game) -> (r: bool) {
        self.same_as(other)
    }
}

impl vstd::std_specs::cmp::PartialEqSpecImpl for Game {
    open spec fn obeys_eq_spec() -> bool {
        true
    }

    open spec fn eq_spec(&self, other: &Game) -> bool {
        same_game(self@, other@)
    }
}

} // verus!
