//! The game library as the pages change it, the banner that warns about
//! missing paths, and where the data is kept.

use vstd::prelude::*;
use crate::form::{GameForm, form_game};
use crate::model::{
    AppData, GameView, Game, Settings, SettingsView, first_index_of, holds_game, same_game,
    lemma_remove_insert_is_update,
};
use crate::paths::{joined, path_join};

verus! {

/// The directory name of the launcher's data.
pub open spec fn app_name() -> Seq<char> {
    "quarkpad"@
}

/// The directory that holds the launcher's data, inside the user's local
/// data directory `base`.
pub open spec fn data_dir_of(base: Seq<char>) -> Seq<char> {
    joined(base, app_name())
}

/// The file that holds the launcher's data.
pub open spec fn data_file_of(base: Seq<char>) -> Seq<char> {
    joined(data_dir_of(base), "data.toml"@)
}

/// The directory that holds the launcher's data.
pub fn data_dir_path(base: &str) -> (r: String)
    ensures
        r@ == data_dir_of(base@),
{
    path_join(base, "quarkpad")
}

/// The file that holds the launcher's data.
pub fn data_file_path(base: &str) -> (r: String)
    ensures
        r@ == data_file_of(base@),
{
    let dir = data_dir_path(base);
    path_join(dir.as_str(), "data.toml")
}

/// `edited` with the playtime of `previous`: editing a game keeps its record.
pub open spec fn with_playtime_of(edited: GameView, previous: GameView) -> GameView {
    GameView {
        name: edited.name,
        cover_path: edited.cover_path,
        exe_path: edited.exe_path,
        wineprefix_path: edited.wineprefix_path,
        extra_args: edited.extra_args,
        gamescope_config: edited.gamescope_config,
        last_played: previous.last_played,
        duration_played: previous.duration_played,
    }
}

/// The games after the add/edit page is saved: a new game goes to the end;
/// an edited one replaces the game at its index.
pub open spec fn games_after_save(games: Seq<GameView>, form: GameView, index: Option<usize>) -> Seq<
    GameView,
> {
    match index {
        Some(i) => games.update(i as int, with_playtime_of(form, games[i as int])),
        None => games.push(form),
    }
}

/// The games after removing the first one equal to `g`, if any.
pub open spec fn games_after_remove(games: Seq<GameView>, g: GameView) -> Seq<GameView> {
    if holds_game(games, g) {
        games.remove(first_index_of(games, g))
    } else {
        games
    }
}

impl AppData {
    /// Saves the add/edit page: appends the form's game, or, when editing the
    /// game at `index`, replaces it and keeps its playtime.
    pub fn save_form(&mut self, form: &GameForm, index: Option<usize>)
        requires
            index matches Some(i) ==> i < old(self)@.games.len(),
        ensures
            final(self)@.games == games_after_save(old(self)@.games, form_game(form@), index),
            final(self)@.settings == old(self)@.settings,
    {
        let mut game = form.to_game();
        match index {
            Some(i) => {
                let ghost before = self@.games;
                let previous = self.take_game(i);
                game.last_played = previous.last_played;
                game.duration_played = previous.duration_played;
                self.put_game(i, game);
                proof {
                    lemma_remove_insert_is_update(
                        before,
                        i as int,
                        with_playtime_of(form_game(form@), before[i as int]),
                    );
                }
            },
            None => {
                let ghost before = self@.games;
                let n = self.games.len();
                self.put_game(n, game);
                assert(self@.games =~= before.push(form_game(form@)));
            },
        }
    }

    /// Removes the first game equal to `game`; returns whether one was found
    /// (and the data has to be saved).
    pub fn remove_game(&mut self, game: &Game) -> (removed: bool)
        ensures
            removed == holds_game(old(self)@.games, game@),
            final(self)@.games == games_after_remove(old(self)@.games, game@),
            final(self)@.settings == old(self)@.settings,
    {
        match self.position_of(game) {
            Some(i) => {
                let _ = self.take_game(i);
                assert(holds_game(old(self)@.games, game@)) by {
                    assert(same_game(old(self)@.games[i as int], game@));
                }
                true
            },
            None => false,
        }
    }
}

impl AppData {
    /// Saves a game from the list page's editor: `editing` below zero adds it
    /// at the end, otherwise it replaces the game at that index.
    pub fn store_game(&mut self, editing: i32, game: Game)
        requires
            editing >= 0 ==> editing < old(self)@.games.len(),
        ensures
            final(self)@.games == (if editing < 0 {
                old(self)@.games.push(game@)
            } else {
                old(self)@.games.update(editing as int, game@)
            }),
            final(self)@.settings == old(self)@.settings,
    {
        let ghost before = self@.games;
        if editing < 0 {
            let n = self.games.len();
            self.put_game(n, game);
            assert(self@.games =~= before.push(game@));
        } else {
            let i = editing as usize;
            let _ = self.take_game(i);
            self.put_game(i, game);
            proof {
                lemma_remove_insert_is_update(before, i as int, game@);
            }
        }
    }

    /// Replaces the settings; the games stay as they are.
    pub fn set_settings(&mut self, settings: Settings)
        ensures
            final(self)@.settings == settings@,
            final(self)@.games == old(self)@.games,
    {
        self.settings = settings;
    }

    /// Removes the game at `index` when there is one; returns whether it did.
    pub fn remove_game_at(&mut self, index: usize) -> (removed: bool)
        ensures
            removed == (index < old(self)@.games.len()),
            removed ==> final(self)@.games == old(self)@.games.remove(index as int),
            !removed ==> final(self)@.games == old(self)@.games,
            final(self)@.settings == old(self)@.settings,
    {
        if index < self.games.len() {
            let _ = self.take_game(index);
            true
        } else {
            false
        }
    }
}

/// The warnings the banner shows about the two paths, in order.
pub open spec fn path_warnings(s: SettingsView, proton_exists: bool, umu_exists: bool) -> Seq<
    Seq<char>,
> {
    (if s.proton_path.len() == 0 {
        seq!["Proton Path is not set"@]
    } else if !proton_exists {
        seq!["Proton Path does not exist"@]
    } else {
        Seq::empty()
    }) + (if s.umu_path.len() == 0 {
        seq!["UMU Path is not set"@]
    } else if !umu_exists {
        seq!["UMU Path does not exist"@]
    } else {
        Seq::empty()
    })
}

/// The texts of `parts` joined with `sep` between each two.
pub open spec fn joined_with(parts: Seq<Seq<char>>, sep: Seq<char>) -> Seq<char>
    decreases parts.len(),
{
    if parts.len() == 0 {
        Seq::empty()
    } else if parts.len() == 1 {
        parts[0]
    } else {
        joined_with(parts.drop_last(), sep) + sep + parts.last()
    }
}

/// The banner's title: the warnings joined with `; `, or no banner when
/// there is nothing to warn about.
pub open spec fn banner_of(s: SettingsView, proton_exists: bool, umu_exists: bool) -> Option<
    Seq<char>,
> {
    let w = path_warnings(s, proton_exists, umu_exists);
    if w.len() == 0 {
        None
    } else {
        Some(joined_with(w, "; "@))
    }
}

/// The warnings about the configured paths, given whether each exists.
pub fn settings_warnings(settings: &Settings, proton_exists: bool, umu_exists: bool) -> (r: Vec<
    String,
>)
    ensures
        r.deep_view() == path_warnings(settings@, proton_exists, umu_exists),
{
    let mut r: Vec<String> = Vec::new();
    if settings.proton_path.as_str().unicode_len() == 0 {
        r.push(String::from_str("Proton Path is not set"));
    } else if !proton_exists {
        r.push(String::from_str("Proton Path does not exist"));
    }
    if settings.umu_path.as_str().unicode_len() == 0 {
        r.push(String::from_str("UMU Path is not set"));
    } else if !umu_exists {
        r.push(String::from_str("UMU Path does not exist"));
    }
    assert(r.deep_view() =~= path_warnings(settings@, proton_exists, umu_exists));
    r
}

/// Joins texts with `sep` between each two.
pub fn join_with(parts: &Vec<String>, sep: &str) -> (r: String)
    ensures
        r@ == joined_with(parts.deep_view(), sep@),
{
    let mut r = String::new();
    let mut i: usize = 0;
    while i < parts.len()
        invariant
            i <= parts.len(),
            r@ == joined_with(parts.deep_view().take(i as int), sep@),
        decreases parts.len() - i,
    {
        let ghost prev = parts.deep_view().take(i as int);
        if i > 0 {
            r.append(sep);
        }
        r.append(parts[i].as_str());
        assert(parts.deep_view().take(i + 1).drop_last() =~= prev);
        if i == 0 {
            assert(joined_with(prev, sep@) =~= Seq::<char>::empty());
            assert(r@ =~= parts.deep_view().take(1)[0]);
        }
        i = i + 1;
    }
    assert(parts.deep_view().take(parts.len() as int) =~= parts.deep_view());
    r
}

/// The banner's title, or no banner: it is hidden exactly when both paths
/// are set and exist.
pub fn banner_title(settings: &Settings, proton_exists: bool, umu_exists: bool) -> (r: Option<
    String,
>)
    ensures
        r.deep_view() == banner_of(settings@, proton_exists, umu_exists),
        r is None <==> (settings@.proton_path.len() > 0 && proton_exists
            && settings@.umu_path.len() > 0 && umu_exists),
{
    let warnings = settings_warnings(settings, proton_exists, umu_exists);
    if warnings.len() == 0 {
        None
    } else {
        Some(join_with(&warnings, "; "))
    }
}

} // verus!
