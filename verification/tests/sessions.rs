use quarkpad::model::{AppData, Game, Settings, Timestamp};
use quarkpad::session::{
    clean_log_line, elapsed_seconds, exit_marker, exit_report, launch_marker, session_header,
};

fn game(name: &str) -> Game {
    Game {
        name: name.to_string(),
        cover_path: String::new(),
        exe_path: format!("/games/{name}.exe"),
        wineprefix_path: "/pfx".to_string(),
        extra_args: String::new(),
        gamescope_config: None,
        last_played: None,
        duration_played: 0,
    }
}

fn at(secs: i64, nanos: u32) -> Timestamp {
    Timestamp { secs, nanos }
}

#[test]
fn elapsed_whole_seconds() {
    assert_eq!(elapsed_seconds(at(100, 0), at(160, 0)), 60);
    assert_eq!(elapsed_seconds(at(100, 900_000_000), at(101, 100_000_000)), 0);
    assert_eq!(elapsed_seconds(at(100, 900_000_000), at(102, 100_000_000)), 1);
    assert_eq!(elapsed_seconds(at(100, 0), at(100, 999_999_999)), 0);
    assert_eq!(elapsed_seconds(at(160, 0), at(100, 0)), 0);
    assert_eq!(elapsed_seconds(at(i64::MIN, 0), at(i64::MAX, 0)), u64::MAX);
}

#[test]
fn markers() {
    assert!(launch_marker("Proton: /games/hk/hk.exe\n"));
    assert!(!launch_marker("Proton: /games/hk/hk.exe"));
    assert!(!launch_marker("proton: /games/hk/hk.exe\n"));
    assert!(exit_marker("PROCESS EXITED WITH STATUS CODE 0\n"));
    assert!(!exit_marker("process exited"));
}

#[test]
fn a_session_adds_its_playtime() {
    let mut g = game("hk");
    g.duration_played = 100;
    assert!(g.record_log_line("Proton: /games/hk.exe\n", at(1_000, 0)));
    assert_eq!(g.last_played, Some(at(1_000, 0)));
    assert_eq!(g.duration_played, 100);
    assert!(!g.record_log_line("some output\n", at(1_500, 0)));
    assert_eq!(g.last_played, Some(at(1_000, 0)));
    assert!(g.record_log_line("PROCESS EXITED WITH STATUS CODE 0\n", at(1_754, 300)));
    assert_eq!(g.last_played, Some(at(1_754, 300)));
    assert_eq!(g.duration_played, 854);
}

#[test]
fn other_lines_change_nothing() {
    let mut g = game("hk");
    let before = g.clone();
    for line in ["", "[2024-01-01 10:00:00 AM]", "  RUNNING\n", "-------------------\n"] {
        assert!(!g.record_log_line(line, at(5, 0)));
        assert_eq!(g, before);
    }
}

#[test]
fn session_lines_touch_only_their_game() {
    let mut data = AppData {
        games: vec![game("a"), game("b"), game("c")],
        settings: Settings::new("/p".into(), "/u".into()),
    };
    assert!(data.record_session_line(1, "Proton: b.exe\n", at(10, 0)));
    assert!(data.record_session_line(1, "PROCESS EXITED WITH STATUS CODE 1\n", at(70, 0)));
    assert_eq!(data.games[0], game("a"));
    assert_eq!(data.games[2], game("c"));
    assert_eq!(data.games[1].duration_played, 60);
    assert_eq!(data.games[1].last_played, Some(at(70, 0)));
}

#[test]
fn launched_session_tracks_first_equal_game() {
    let mut data = AppData { games: vec![game("a"), game("b"), game("b")], settings: Settings::empty() };
    let launched = game("b");
    let mut started: Option<usize> = None;
    assert!(!data.record_launched_line(&launched, &mut started, "[2024-01-01 10:00:00 AM]", at(10, 0)));
    assert_eq!(started, None);
    assert!(data.record_launched_line(&launched, &mut started, "Proton: /games/b.exe\n", at(100, 0)));
    assert_eq!(started, Some(1));
    assert_eq!(data.games[1].last_played, Some(at(100, 0)));
    assert!(!data.record_launched_line(&launched, &mut started, "game output\n", at(200, 0)));
    assert!(data.record_launched_line(&launched, &mut started, "PROCESS EXITED WITH STATUS CODE 0\n", at(1_300, 500)));
    assert_eq!(data.games[1].duration_played, 1_200);
    assert_eq!(data.games[1].last_played, Some(at(1_300, 500)));
    assert_eq!(data.games[0], game("a"));
    assert_eq!(data.games[2], game("b"));
}

#[test]
fn launched_session_of_a_missing_game_changes_nothing() {
    let mut data = AppData { games: vec![game("a")], settings: Settings::empty() };
    let mut started: Option<usize> = None;
    assert!(!data.record_launched_line(&game("zzz"), &mut started, "Proton: z.exe\n", at(1, 0)));
    assert_eq!(started, None);
    assert!(!data.record_launched_line(&game("zzz"), &mut started, "PROCESS EXITED WITH STATUS CODE 0\n", at(9, 0)));
    assert_eq!(data.games, vec![game("a")]);
}

#[test]
fn launched_session_matches_paths_as_paths() {
    let mut stored = game("a");
    stored.exe_path = "/games//a.exe".to_string();
    let mut data = AppData { games: vec![stored], settings: Settings::empty() };
    let mut started: Option<usize> = None;
    assert!(data.record_launched_line(&game("a"), &mut started, "Proton: a.exe\n", at(0, 0)));
    assert!(data.record_launched_line(&game("a"), &mut started, "PROCESS EXITED WITH STATUS CODE 0\n", at(61, 0)));
    assert_eq!(data.games[0].duration_played, 61);
}

#[test]
fn exit_report_lines() {
    assert_eq!(
        exit_report(Some(0)),
        vec!["-------------------\n", "PROCESS EXITED WITH STATUS CODE 0\n", "-------------------\n\n\n"]
    );
    assert_eq!(exit_report(Some(-9))[1], "PROCESS EXITED WITH STATUS CODE -9\n");
    assert!(exit_report(None).is_empty());
}

#[test]
fn exit_report_closes_the_session() {
    let mut g = game("hk");
    g.record_log_line("Proton: hk.exe\n", at(0, 0));
    for line in exit_report(Some(3)) {
        g.record_log_line(&line, at(30, 0));
    }
    assert_eq!(g.duration_played, 30);
}

#[test]
fn header_lines() {
    assert_eq!(
        session_header("2024-05-01 09:15:00 PM", "\"umu-run\" \"game.exe\""),
        vec!["[2024-05-01 09:15:00 PM]", "  RUNNING\n", "\"umu-run\" \"game.exe\"\n\n"]
    );
}

#[test]
fn log_lines_lose_their_escapes() {
    assert_eq!(clean_log_line("\x1b[32mfoo\x1b[m bar"), "foo bar");
    assert_eq!(clean_log_line("\x1b[1;31merror:\x1b[0m failed\n"), "error: failed\n");
    assert_eq!(clean_log_line("plain line\n"), "plain line\n");
    assert_eq!(clean_log_line("ünïcode ✓\n"), "ünïcode ✓\n");
    assert_eq!(clean_log_line(""), "");
}

#[test]
fn plain_lines_pass_through_cleaning() {
    for line in ["Proton: /games/hk/hk.exe\n", "PROCESS EXITED WITH STATUS CODE 0\n", "a~b\x7f c\n", "日本語\n"] {
        assert_eq!(clean_log_line(line), line);
    }
}

#[test]
fn controls_other_than_newline_are_dropped() {
    assert_eq!(clean_log_line("a\tb\r\n"), "ab\n");
    assert_eq!(clean_log_line("x\u{85}y"), "xy");
}
