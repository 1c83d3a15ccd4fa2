use quarkpad::form::{gamescope_description, parse_size_or, GameForm};
use quarkpad::library::{banner_title, data_dir_path, data_file_path, join_with, settings_warnings};
use quarkpad::model::{AppData, Game, GamescopeConfig, Settings, Timestamp};

fn game(name: &str) -> Game {
    Game {
        name: name.to_string(),
        cover_path: format!("/covers/{name}.png"),
        exe_path: format!("/games/{name}/{name}.exe"),
        wineprefix_path: format!("/pfx/{name}"),
        extra_args: "-dx11".to_string(),
        gamescope_config: None,
        last_played: None,
        duration_played: 0,
    }
}

fn data(games: Vec<Game>) -> AppData {
    AppData { games, settings: Settings::new("/p".into(), "/u".into()) }
}

#[test]
fn edit_form_shows_the_game() {
    let mut g = game("hk");
    g.gamescope_config = Some(GamescopeConfig { output_width: 2560, output_height: 1440 });
    let f = GameForm::from_game(&g);
    assert_eq!(f.name, "hk");
    assert_eq!(f.cover_path, "/covers/hk.png");
    assert_eq!(f.exe_path, "/games/hk/hk.exe");
    assert_eq!(f.wineprefix_path, "/pfx/hk");
    assert_eq!(f.extra_args, "-dx11");
    assert!(f.use_gamescope);
    assert_eq!(f.gamescope_width, "2560");
    assert_eq!(f.gamescope_height, "1440");
    let off = GameForm::from_game(&game("x"));
    assert!(!off.use_gamescope);
    assert_eq!(off.gamescope_width, "");
}

#[test]
fn saving_an_unchanged_edit_gives_the_game_back() {
    let mut g = game("hk");
    g.gamescope_config = Some(GamescopeConfig { output_width: 1280, output_height: 800 });
    assert_eq!(GameForm::from_game(&g).to_game(), g);
    let plain = game("celeste");
    assert_eq!(GameForm::from_game(&plain).to_game(), plain);
}

#[test]
fn size_fields_fall_back_to_defaults() {
    let mut f = GameForm::blank();
    assert_eq!(f.to_game().gamescope_config, None);
    f.use_gamescope = true;
    assert_eq!(f.to_game().gamescope_config, Some(GamescopeConfig { output_width: 1920, output_height: 1080 }));
    f.gamescope_width = "3440".into();
    f.gamescope_height = "wide".into();
    assert_eq!(f.to_game().gamescope_config, Some(GamescopeConfig { output_width: 3440, output_height: 1080 }));
    assert_eq!(parse_size_or("-1", 7), 7);
    assert_eq!(parse_size_or("+12", 7), 12);
}

#[test]
fn blank_form_is_empty() {
    let f = GameForm::blank();
    assert!(f.name.is_empty() && f.exe_path.is_empty() && !f.use_gamescope);
    let g = f.to_game();
    assert_eq!(g.duration_played, 0);
    assert_eq!(g.last_played, None);
}

#[test]
fn saving_a_new_game_appends_it() {
    let mut d = data(vec![game("a")]);
    let mut f = GameForm::blank();
    f.name = "b".into();
    f.exe_path = "/b.exe".into();
    d.save_form(&f, None);
    assert_eq!(d.games.len(), 2);
    assert_eq!(d.games[0], game("a"));
    assert_eq!(d.games[1].name, "b");
    assert_eq!(d.games[1].exe_path, "/b.exe");
    assert_eq!(d.settings.proton_path, "/p");
}

#[test]
fn saving_an_edit_replaces_and_keeps_playtime() {
    let mut played = game("b");
    played.duration_played = 3600;
    played.last_played = Some(Timestamp { secs: 1_700_000_000, nanos: 5 });
    let mut d = data(vec![game("a"), played.clone(), game("c")]);
    let mut f = GameForm::from_game(&played);
    f.name = "b renamed".into();
    d.save_form(&f, Some(1));
    assert_eq!(d.games.len(), 3);
    assert_eq!(d.games[0], game("a"));
    assert_eq!(d.games[2], game("c"));
    assert_eq!(d.games[1].name, "b renamed");
    assert_eq!(d.games[1].duration_played, 3600);
    assert_eq!(d.games[1].last_played, played.last_played);
}

#[test]
fn removing_takes_out_the_first_equal_game() {
    let mut d = data(vec![game("a"), game("b"), game("a")]);
    assert_eq!(d.position_of(&game("a")), Some(0));
    assert_eq!(d.position_of(&game("b")), Some(1));
    assert!(d.remove_game(&game("a")));
    assert_eq!(d.games, vec![game("b"), game("a")]);
    assert!(!d.remove_game(&game("zzz")));
    assert_eq!(d.games.len(), 2);
    assert_eq!(d.position_of(&game("zzz")), None);
}

#[test]
fn equality_covers_every_field() {
    let a = game("a");
    let mut b = game("a");
    assert!(a.same_as(&b));
    b.duration_played = 1;
    assert!(!a.same_as(&b));
    let mut c = game("a");
    c.gamescope_config = Some(GamescopeConfig { output_width: 1, output_height: 1 });
    assert_ne!(a, c);
}

#[test]
fn paths_compare_by_components() {
    let a = game("a");
    for exe in ["/games/a//a.exe", "/games/a/a.exe/", "/games/a/./a.exe"] {
        let mut b = game("a");
        b.exe_path = exe.to_string();
        assert!(a.same_as(&b), "{exe:?}");
    }
    let mut c = game("a");
    c.exe_path = "/games/a/../a/a.exe".to_string();
    assert!(!a.same_as(&c));
    let mut d = game("a");
    d.wineprefix_path = "/pfx/a/".to_string();
    let mut data = data(vec![game("x"), d]);
    assert_eq!(data.position_of(&a), Some(1));
    assert!(data.remove_game(&a));
    assert_eq!(data.games, vec![game("x")]);
}

#[test]
fn settings_replace_leaves_games() {
    let mut d = data(vec![game("a"), game("b")]);
    d.set_settings(Settings::new("/new/proton".into(), "/new/umu".into()));
    assert_eq!(d.settings.proton_path, "/new/proton");
    assert_eq!(d.settings.umu_path, "/new/umu");
    assert_eq!(d.games, vec![game("a"), game("b")]);
}

#[test]
fn store_and_remove_by_index() {
    let mut d = data(vec![game("a"), game("b")]);
    d.store_game(-1, game("c"));
    assert_eq!(d.games, vec![game("a"), game("b"), game("c")]);
    d.store_game(0, game("z"));
    assert_eq!(d.games, vec![game("z"), game("b"), game("c")]);
    assert!(d.remove_game_at(1));
    assert_eq!(d.games, vec![game("z"), game("c")]);
    assert!(!d.remove_game_at(2));
    assert_eq!(d.games.len(), 2);
}

#[test]
fn empty_data() {
    let d = AppData::empty();
    assert!(d.games.is_empty());
    assert!(d.settings.proton_path.is_empty() && d.settings.umu_path.is_empty());
}

#[test]
fn banner_messages() {
    let unset = Settings::empty();
    assert_eq!(
        banner_title(&unset, false, false).as_deref(),
        Some("Proton Path is not set; UMU Path is not set")
    );
    let set = Settings::new("/p".into(), "/u".into());
    assert_eq!(banner_title(&set, false, true).as_deref(), Some("Proton Path does not exist"));
    assert_eq!(banner_title(&set, true, false).as_deref(), Some("UMU Path does not exist"));
    assert_eq!(
        banner_title(&set, false, false).as_deref(),
        Some("Proton Path does not exist; UMU Path does not exist")
    );
    assert_eq!(banner_title(&set, true, true), None);
    assert_eq!(settings_warnings(&unset, true, true), vec!["Proton Path is not set", "UMU Path is not set"]);
}

#[test]
fn joining_texts() {
    assert_eq!(join_with(&vec![], "; "), "");
    assert_eq!(join_with(&vec!["a".to_string()], "; "), "a");
    assert_eq!(join_with(&vec!["a".to_string(), "b".to_string(), "c".to_string()], "; "), "a; b; c");
}

#[test]
fn data_location() {
    assert_eq!(data_dir_path("/home/u/.local/share"), "/home/u/.local/share/quarkpad");
    assert_eq!(data_file_path("/home/u/.local/share"), "/home/u/.local/share/quarkpad/data.toml");
}

#[test]
fn gamescope_note() {
    assert_eq!(gamescope_description(false).as_deref(), Some("Gamescope not found"));
    assert_eq!(gamescope_description(true), None);
}
