use quarkpad::launch::{
    build_launch_command, build_probe_command, build_winecfg_command, launch_environment,
    launch_game_command, probe_found, CommandSpec,
};
use quarkpad::model::{Game, GamescopeConfig, Settings};

fn game(exe: &str, gamescope: Option<GamescopeConfig>) -> Game {
    Game {
        name: "Hollow Knight".to_string(),
        cover_path: "/covers/hk.png".to_string(),
        exe_path: exe.to_string(),
        wineprefix_path: "/prefixes/hk".to_string(),
        extra_args: "-windowed".to_string(),
        gamescope_config: gamescope,
        last_played: None,
        duration_played: 0,
    }
}

fn settings() -> Settings {
    Settings::new("/opt/proton".to_string(), "/opt/umu".to_string())
}

fn env_pairs(c: &CommandSpec) -> Vec<(String, String)> {
    c.envs.iter().map(|e| (e.key.clone(), e.value.clone())).collect()
}

const DLLS: &str = "d3d10core,d3d11,d3d12,d3d12core,d3d8,d3d9,d3dcompiler_33,d3dcompiler_34,d3dcompiler_35,d3dcompiler_36,d3dcompiler_37,d3dcompiler_38,d3dcompiler_39,d3dcompiler_40,d3dcompiler_41,d3dcompiler_42,d3dcompiler_43,d3dcompiler_46,d3dcompiler_47,d3dx10,d3dx10_33,d3dx10_34,d3dx10_35,d3dx10_36,d3dx10_37,d3dx10_38,d3dx10_39,d3dx10_40,d3dx10_41,d3dx10_42,d3dx10_43,d3dx11_42,d3dx11_43,d3dx9_24,d3dx9_25,d3dx9_26,d3dx9_27,d3dx9_28,d3dx9_29,d3dx9_30,d3dx9_31,d3dx9_32,d3dx9_33,d3dx9_34,d3dx9_35,d3dx9_36,d3dx9_37,d3dx9_38,d3dx9_39,d3dx9_40,d3dx9_41,d3dx9_42,d3dx9_43,dxgi,nvapi,nvapi64,nvofapi64=n;winemenubuilder=";

fn expected_env() -> Vec<(String, String)> {
    [
        ("WINEPREFIX", "/prefixes/hk"),
        ("PROTONPATH", "/opt/proton"),
        ("GAME_NAME", "Hollow Knight"),
        ("WINEDEBUG", "-all"),
        ("DXVK_LOG_LEVEL", "debug"),
        ("PROTON_LOG", "1"),
        ("UMU_LOG", "debug"),
        ("WINEARCH", "win64"),
        ("WINE", "/opt/proton/files/bin/wine"),
        ("WINEESYNC", "0"),
        ("WINEFSYNC", "1"),
        ("WINE_FULLSCREEN_FSR", "1"),
        ("DXVK_NVAPIHACK", "0"),
        ("DXVK_ENABLE_NVAPI", "1"),
        ("WINEDLLOVERRIDES", DLLS),
        ("WINE_LARGE_ADDRESS_AWARE", "1"),
        ("STORE", "none"),
        ("GAMEID", "umu-default"),
        ("PROTON_VERB", "run"),
    ]
    .iter()
    .map(|(k, v)| (k.to_string(), v.to_string()))
    .collect()
}

#[test]
fn environment_of_a_game() {
    let envs = launch_environment(&game("/games/hk/hk.exe", None), &settings());
    let pairs: Vec<(String, String)> =
        envs.iter().map(|e| (e.key.clone(), e.value.clone())).collect();
    assert_eq!(pairs, expected_env());
}

#[test]
fn direct_launch_without_gamescope() {
    let c = launch_game_command(&game("/games/hk/hk.exe", None), &settings(), false).unwrap();
    assert_eq!(c.program, "/opt/umu/umu-run");
    assert_eq!(c.args, vec!["hk.exe", "-windowed"]);
    assert_eq!(env_pairs(&c), expected_env());
    assert_eq!(c.current_dir.as_deref(), Some("/games/hk"));
}

#[test]
fn direct_launch_under_gamescope() {
    let cfg = GamescopeConfig { output_width: 2560, output_height: 1440 };
    let c = launch_game_command(&game("/games/hk/hk.exe", Some(cfg)), &settings(), false).unwrap();
    assert_eq!(c.program, "gamescope");
    assert_eq!(
        c.args,
        vec![
            "-W", "2560", "-H", "1440", "-f", "--force-grab-cursor", "--", "/opt/umu/umu-run",
            "hk.exe", "-windowed"
        ]
    );
    assert_eq!(env_pairs(&c), expected_env());
}

#[test]
fn flatpak_launch_passes_environment_as_flags() {
    let cfg = GamescopeConfig { output_width: 1920, output_height: 1080 };
    let g = game("/games/hk/hk.exe", Some(cfg));
    let sandboxed = launch_game_command(&g, &settings(), true).unwrap();
    let direct = launch_game_command(&g, &settings(), false).unwrap();
    assert_eq!(sandboxed.program, "flatpak-spawn");
    assert!(sandboxed.envs.is_empty());
    let mut expected = vec!["--host".to_string()];
    for (k, v) in expected_env() {
        expected.push(format!("--env={k}={v}"));
    }
    expected.push(direct.program.clone());
    expected.extend(direct.args.iter().cloned());
    assert_eq!(sandboxed.args, expected);
    assert_eq!(sandboxed.current_dir, direct.current_dir);
}

#[test]
fn flatpak_launch_without_gamescope_runs_umu() {
    let c = launch_game_command(&game("/games/hk/hk.exe", None), &settings(), true).unwrap();
    let n = c.args.len();
    assert_eq!(c.args[n - 3], "/opt/umu/umu-run");
    assert_eq!(c.args[n - 2], "hk.exe");
    assert_eq!(c.args[n - 1], "-windowed");
}

#[test]
fn extra_args_are_one_argument_even_when_empty() {
    let mut g = game("/games/hk/hk.exe", None);
    g.extra_args = String::new();
    let c = launch_game_command(&g, &settings(), false).unwrap();
    assert_eq!(c.args, vec!["hk.exe", ""]);
}

#[test]
fn executable_directory_and_name_come_from_the_path() {
    let c = launch_game_command(&game("/games/deep/dir/run.exe", None), &settings(), false).unwrap();
    assert_eq!(c.current_dir.as_deref(), Some("/games/deep/dir"));
    assert_eq!(c.args[0], "run.exe");
    let bare = launch_game_command(&game("run.exe", None), &settings(), false).unwrap();
    assert_eq!(bare.current_dir.as_deref(), Some(""));
    assert_eq!(bare.args[0], "run.exe");
}

#[test]
fn no_command_without_an_executable_path() {
    assert!(launch_game_command(&game("", None), &settings(), false).is_none());
    assert!(launch_game_command(&game("/", None), &settings(), true).is_none());
    assert!(launch_game_command(&game("/games/..", None), &settings(), false).is_none());
}

#[test]
fn build_takes_directory_and_name_as_given() {
    let c = build_launch_command(
        &game("ignored", None),
        &settings(),
        false,
        "/d".to_string(),
        "n.exe".to_string(),
    );
    assert_eq!(c.current_dir.as_deref(), Some("/d"));
    assert_eq!(c.args, vec!["n.exe", "-windowed"]);
}

#[test]
fn winecfg_command() {
    let c = build_winecfg_command(&game("/games/hk/hk.exe", None), &settings());
    assert_eq!(c.program, "/opt/umu/umu-run");
    assert_eq!(c.args, vec!["winecfg"]);
    assert_eq!(
        env_pairs(&c),
        vec![
            ("WINEPREFIX".to_string(), "/prefixes/hk".to_string()),
            ("PROTONPATH".to_string(), "/opt/proton".to_string()),
            ("PROTON_LOG".to_string(), "1".to_string()),
            ("WINEARCH".to_string(), "win64".to_string()),
        ]
    );
    assert_eq!(c.current_dir, None);
}

#[test]
fn probe_for_a_program() {
    let c = build_probe_command("gamescope");
    assert_eq!(c.program, "sh");
    assert_eq!(c.args, vec!["-c", "command -v gamescope >/dev/null 2>&1"]);
    assert!(c.envs.is_empty());
    assert!(probe_found(Some(0)));
    assert!(!probe_found(Some(1)));
    assert!(!probe_found(Some(127)));
    assert!(!probe_found(None));
}
