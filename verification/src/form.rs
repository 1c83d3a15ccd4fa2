//! The add/edit page: the text a game's form shows, and the game a filled
//! form stands for.

use vstd::prelude::*;
use crate::model::{Game, GameView, GamescopeConfig};
use crate::text::{decimal, lemma_parse_decimal_roundtrip, parse_unsigned, parse_usize, usize_to_string};

verus! {

/// The output width used when the width field does not hold a number.
pub const DEFAULT_GAMESCOPE_WIDTH: usize = 1920;

/// The output height used when the height field does not hold a number.
pub const DEFAULT_GAMESCOPE_HEIGHT: usize = 1080;

/// The fields of the add/edit page.
#[derive(Clone, Debug)]
pub struct GameForm {
    pub name: String,
    pub cover_path: String,
    pub exe_path: String,
    pub wineprefix_path: String,
    pub extra_args: String,
    pub use_gamescope: bool,
    pub gamescope_width: String,
    pub gamescope_height: String,
}

/// The view of a [`GameForm`].
pub struct GameFormView {
    pub name: Seq<char>,
    pub cover_path: Seq<char>,
    pub exe_path: Seq<char>,
    pub wineprefix_path: Seq<char>,
    pub extra_args: Seq<char>,
    pub use_gamescope: bool,
    pub gamescope_width: Seq<char>,
    pub gamescope_height: Seq<char>,
}

impl View for GameForm {
    type V = GameFormView;

    open spec fn view(&self) -> GameFormView {
        GameFormView {
            name: self.name@,
            cover_path: self.cover_path@,
            exe_path: self.exe_path@,
            wineprefix_path: self.wineprefix_path@,
            extra_args: self.extra_args@,
            use_gamescope: self.use_gamescope,
            gamescope_width: self.gamescope_width@,
            gamescope_height: self.gamescope_height@,
        }
    }
}

/// The number a size field holds, or `default` when it holds none.
pub open spec fn size_or(text: Seq<char>, default: nat) -> nat {
    match parse_unsigned(text, usize::MAX as nat) {
        Some(v) => v,
        None => default,
    }
}

/// The gamescope configuration a form stands for.
pub open spec fn form_gamescope(f: GameFormView) -> Option<GamescopeConfig> {
    if f.use_gamescope {
        Some(
            GamescopeConfig {
                output_width: size_or(f.gamescope_width, DEFAULT_GAMESCOPE_WIDTH as nat) as usize,
                output_height: size_or(f.gamescope_height, DEFAULT_GAMESCOPE_HEIGHT as nat) as usize,
            },
        )
    } else {
        None
    }
}

/// The game a saved form stands for: never played yet.
pub open spec fn form_game(f: GameFormView) -> GameView {
    GameView {
        name: f.name,
        cover_path: f.cover_path,
        exe_path: f.exe_path,
        wineprefix_path: f.wineprefix_path,
        extra_args: f.extra_args,
        gamescope_config: form_gamescope(f),
        last_played: None,
        duration_played: 0,
    }
}

/// What the fields of a blank form hold.
pub open spec fn is_blank(f: GameFormView) -> bool {
    &&& f.name.len() == 0
    &&& f.cover_path.len() == 0
    &&& f.exe_path.len() == 0
    &&& f.wineprefix_path.len() == 0
    &&& f.extra_args.len() == 0
    &&& !f.use_gamescope
    &&& f.gamescope_width.len() == 0
    &&& f.gamescope_height.len() == 0
}

/// What the page shows for a game being edited: its fields, and gamescope's
/// size when it is used (blank size fields when it is not).
pub open spec fn form_of(g: GameView) -> GameFormView {
    GameFormView {
        name: g.name,
        cover_path: g.cover_path,
        exe_path: g.exe_path,
        wineprefix_path: g.wineprefix_path,
        extra_args: g.extra_args,
        use_gamescope: g.gamescope_config is Some,
        gamescope_width: match g.gamescope_config {
            Some(c) => decimal(c.output_width as nat),
            None => Seq::empty(),
        },
        gamescope_height: match g.gamescope_config {
            Some(c) => decimal(c.output_height as nat),
            None => Seq::empty(),
        },
    }
}

/// Reads a size field, falling back to `default` (`parse().unwrap_or`).
pub fn parse_size_or(text: &str, default: usize) -> (r: usize)
    ensures
        r as nat == size_or(text@, default as nat),
{
    match parse_usize(text) {
        Some(v) => v,
        None => default,
    }
}

impl GameForm {
    /// The form of the page that adds a new game.
    pub fn blank() -> (r: GameForm)
        ensures
            is_blank(r@),
    {
        GameForm {
            name: String::new(),
            cover_path: String::new(),
            exe_path: String::new(),
            wineprefix_path: String::new(),
            extra_args: String::new(),
            use_gamescope: false,
            gamescope_width: String::new(),
            gamescope_height: String::new(),
        }
    }

    /// The form of the page that edits `game`.
    pub fn from_game(game: &Game) -> (r: GameForm)
        ensures
            r@ == form_of(game@),
    {
        let (use_gamescope, w, h) = match game.gamescope_config {
            Some(c) => (true, usize_to_string(c.output_width), usize_to_string(c.output_height)),
            None => (false, String::new(), String::new()),
        };
        let r = GameForm {
            name: game.name.clone(),
            cover_path: game.cover_path.clone(),
            exe_path: game.exe_path.clone(),
            wineprefix_path: game.wineprefix_path.clone(),
            extra_args: game.extra_args.clone(),
            use_gamescope,
            gamescope_width: w,
            gamescope_height: h,
        };
        assert(r@.gamescope_width =~= form_of(game@).gamescope_width);
        assert(r@.gamescope_height =~= form_of(game@).gamescope_height);
        r
    }

    /// The game this form stands for.
    pub fn to_game(&self) -> (r: Game)
        ensures
            r@ == form_game(self@),
    {
        let gamescope_config = if self.use_gamescope {
            Some(
                GamescopeConfig {
                    output_width: parse_size_or(
                        self.gamescope_width.as_str(),
                        DEFAULT_GAMESCOPE_WIDTH,
                    ),
                    output_height: parse_size_or(
                        self.gamescope_height.as_str(),
                        DEFAULT_GAMESCOPE_HEIGHT,
                    ),
                },
            )
        } else {
            None
        };
        Game {
            name: self.name.clone(),
            cover_path: self.cover_path.clone(),
            exe_path: self.exe_path.clone(),
            wineprefix_path: self.wineprefix_path.clone(),
            extra_args: self.extra_args.clone(),
            gamescope_config,
            last_played: None,
            duration_played: 0,
        }
    }
}

/// Saving the page that edits a game, unchanged, gives back the game's
/// name, paths, extra arguments and gamescope configuration.
pub proof fn lemma_edit_roundtrip(g: GameView)
    ensures
        form_game(form_of(g)).name == g.name,
        form_game(form_of(g)).cover_path == g.cover_path,
        form_game(form_of(g)).exe_path == g.exe_path,
        form_game(form_of(g)).wineprefix_path == g.wineprefix_path,
        form_game(form_of(g)).extra_args == g.extra_args,
        form_game(form_of(g)).gamescope_config == g.gamescope_config,
{
    if let Some(c) = g.gamescope_config {
        lemma_parse_decimal_roundtrip(c.output_width as nat);
        lemma_parse_decimal_roundtrip(c.output_height as nat);
    }
}

/// The note on the gamescope section when gamescope cannot be found.
pub open spec fn gamescope_note(found: bool) -> Option<Seq<char>> {
    if found {
        None
    } else {
        Some("Gamescope not found"@)
    }
}

/// The note on the gamescope section, given whether gamescope was found.
pub fn gamescope_description(found: bool) -> (r: Option<String>)
    ensures
        r.deep_view() == gamescope_note(found),
{
    if found {
        None
    } else {
        Some(String::from_str("Gamescope not found"))
    }
}

} // verus!
