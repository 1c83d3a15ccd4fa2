//! The commands the launcher runs: a game through umu-launcher (directly,
//! under gamescope, or from inside a Flatpak sandbox through
//! `flatpak-spawn`), winecfg for a game's prefix, and the shell probe for an
//! installed program.

use vstd::prelude::*;
use crate::model::{Game, GameView, GamescopeConfig, Settings, SettingsView};
use crate::paths::{file_name_of, joined, parent_of, path_file_name, path_join, path_parent};
use crate::text::{decimal, usize_to_string};

verus! {

/// One environment variable: its name and its value.
#[derive(Clone, Debug)]
pub struct EnvVar {
    pub key: String,
    pub value: String,
}

/// A command to run: the program, its arguments in order, the environment
/// variables set on it, and the directory it runs in (the launcher's own
/// when there is none).
#[derive(Clone, Debug)]
pub struct CommandSpec {
    pub program: String,
    pub args: Vec<String>,
    pub envs: Vec<EnvVar>,
    pub current_dir: Option<String>,
}

/// The view of a [`CommandSpec`].
pub struct CommandView {
    pub program: Seq<char>,
    pub args: Seq<Seq<char>>,
    pub envs: Seq<(Seq<char>, Seq<char>)>,
    pub current_dir: Option<Seq<char>>,
}

impl View for EnvVar {
    type V = (Seq<char>, Seq<char>);

    open spec fn view(&self) -> (Seq<char>, Seq<char>) {
        (self.key@, self.value@)
    }
}

/// The views of a sequence of environment variables.
pub open spec fn envs_view(envs: Seq<EnvVar>) -> Seq<(Seq<char>, Seq<char>)> {
    envs.map_values(|e: EnvVar| e@)
}

impl View for CommandSpec {
    type V = CommandView;

    open spec fn view(&self) -> CommandView {
        CommandView {
            program: self.program@,
            args: self.args.deep_view(),
            envs: envs_view(self.envs@),
            current_dir: self.current_dir.deep_view(),
        }
    }
}

/// The DLLs that Wine takes from the game rather than from its own build.
pub open spec fn dll_overrides() -> Seq<char> {
    "d3d10core,d3d11,d3d12,d3d12core,d3d8,d3d9,d3dcompiler_33,d3dcompiler_34,d3dcompiler_35,d3dcompiler_36,d3dcompiler_37,d3dcompiler_38,d3dcompiler_39,d3dcompiler_40,d3dcompiler_41,d3dcompiler_42,d3dcompiler_43,d3dcompiler_46,d3dcompiler_47,d3dx10,d3dx10_33,d3dx10_34,d3dx10_35,d3dx10_36,d3dx10_37,d3dx10_38,d3dx10_39,d3dx10_40,d3dx10_41,d3dx10_42,d3dx10_43,d3dx11_42,d3dx11_43,d3dx9_24,d3dx9_25,d3dx9_26,d3dx9_27,d3dx9_28,d3dx9_29,d3dx9_30,d3dx9_31,d3dx9_32,d3dx9_33,d3dx9_34,d3dx9_35,d3dx9_36,d3dx9_37,d3dx9_38,d3dx9_39,d3dx9_40,d3dx9_41,d3dx9_42,d3dx9_43,dxgi,nvapi,nvapi64,nvofapi64=n;winemenubuilder="@
}

fn dll_overrides_text() -> (r: String)
    ensures
        r@ == dll_overrides(),
{
    String::from_str(
        "d3d10core,d3d11,d3d12,d3d12core,d3d8,d3d9,d3dcompiler_33,d3dcompiler_34,d3dcompiler_35,d3dcompiler_36,d3dcompiler_37,d3dcompiler_38,d3dcompiler_39,d3dcompiler_40,d3dcompiler_41,d3dcompiler_42,d3dcompiler_43,d3dcompiler_46,d3dcompiler_47,d3dx10,d3dx10_33,d3dx10_34,d3dx10_35,d3dx10_36,d3dx10_37,d3dx10_38,d3dx10_39,d3dx10_40,d3dx10_41,d3dx10_42,d3dx10_43,d3dx11_42,d3dx11_43,d3dx9_24,d3dx9_25,d3dx9_26,d3dx9_27,d3dx9_28,d3dx9_29,d3dx9_30,d3dx9_31,d3dx9_32,d3dx9_33,d3dx9_34,d3dx9_35,d3dx9_36,d3dx9_37,d3dx9_38,d3dx9_39,d3dx9_40,d3dx9_41,d3dx9_42,d3dx9_43,dxgi,nvapi,nvapi64,nvofapi64=n;winemenubuilder=",
    )
}

/// Wine's binary inside a Proton installation: `files/bin/wine`.
pub open spec fn wine_path(proton: Seq<char>) -> Seq<char> {
    joined(joined(joined(proton, "files"@), "bin"@), "wine"@)
}

/// umu-launcher's entry point inside its installation: `umu-run`.
pub open spec fn umu_run_path(umu: Seq<char>) -> Seq<char> {
    joined(umu, "umu-run"@)
}

/// The environment a game runs with.
pub open spec fn launch_env(g: GameView, s: SettingsView) -> Seq<(Seq<char>, Seq<char>)> {
    seq![
        ("WINEPREFIX"@, g.wineprefix_path),
        ("PROTONPATH"@, s.proton_path),
        ("GAME_NAME"@, g.name),
        ("WINEDEBUG"@, "-all"@),
        ("DXVK_LOG_LEVEL"@, "debug"@),
        ("PROTON_LOG"@, "1"@),
        ("UMU_LOG"@, "debug"@),
        ("WINEARCH"@, "win64"@),
        ("WINE"@, wine_path(s.proton_path)),
        ("WINEESYNC"@, "0"@),
        ("WINEFSYNC"@, "1"@),
        ("WINE_FULLSCREEN_FSR"@, "1"@),
        ("DXVK_NVAPIHACK"@, "0"@),
        ("DXVK_ENABLE_NVAPI"@, "1"@),
        ("WINEDLLOVERRIDES"@, dll_overrides()),
        ("WINE_LARGE_ADDRESS_AWARE"@, "1"@),
        ("STORE"@, "none"@),
        ("GAMEID"@, "umu-default"@),
        ("PROTON_VERB"@, "run"@),
    ]
}

/// gamescope's arguments: the output size, fullscreen, a grabbed cursor,
/// and then umu-run as the program it hosts.
pub open spec fn gamescope_args(c: GamescopeConfig, umu_run: Seq<char>) -> Seq<Seq<char>> {
    seq![
        "-W"@,
        decimal(c.output_width as nat),
        "-H"@,
        decimal(c.output_height as nat),
        "-f"@,
        "--force-grab-cursor"@,
        "--"@,
        umu_run,
    ]
}

/// The arguments that follow the program that runs the game: gamescope's
/// own when it is used, then the executable's file name and the game's extra
/// arguments as one argument.
pub open spec fn game_args(g: GameView, umu_run: Seq<char>, exe_name: Seq<char>) -> Seq<
    Seq<char>,
> {
    (match g.gamescope_config {
        Some(c) => gamescope_args(c, umu_run),
        None => Seq::empty(),
    }) + seq![exe_name, g.extra_args]
}

/// The program that runs the game: gamescope when it is configured,
/// otherwise umu-run.
pub open spec fn game_runner(g: GameView, umu_run: Seq<char>) -> Seq<char> {
    if g.gamescope_config is Some {
        "gamescope"@
    } else {
        umu_run
    }
}

/// How `flatpak-spawn` is told to set one environment variable on the host.
pub open spec fn env_flag(kv: (Seq<char>, Seq<char>)) -> Seq<char> {
    "--env="@ + kv.0 + "="@ + kv.1
}

/// The command that launches a game whose executable lies in `exe_dir` under
/// the name `exe_name`. Inside a Flatpak sandbox the same command is run on
/// the host through `flatpak-spawn --host`, the environment passed as flags.
pub open spec fn launch_command(
    g: GameView,
    s: SettingsView,
    inside_flatpak: bool,
    exe_dir: Seq<char>,
    exe_name: Seq<char>,
) -> CommandView {
    let umu = umu_run_path(s.umu_path);
    if inside_flatpak {
        CommandView {
            program: "flatpak-spawn"@,
            args: seq!["--host"@] + launch_env(g, s).map_values(|kv: (Seq<char>, Seq<char>)| env_flag(kv))
                + seq![game_runner(g, umu)] + game_args(g, umu, exe_name),
            envs: Seq::empty(),
            current_dir: Some(exe_dir),
        }
    } else {
        CommandView {
            program: game_runner(g, umu),
            args: game_args(g, umu, exe_name),
            envs: launch_env(g, s),
            current_dir: Some(exe_dir),
        }
    }
}

fn env_var(key: &str, value: String) -> (r: EnvVar)
    ensures
        r@ == (key@, value@),
{
    EnvVar { key: String::from_str(key), value }
}

fn env_lit(key: &str, value: &str) -> (r: EnvVar)
    ensures
        r@ == (key@, value@),
{
    EnvVar { key: String::from_str(key), value: String::from_str(value) }
}

/// The environment a game runs with.
pub fn launch_environment(game: &Game, settings: &Settings) -> (r: Vec<EnvVar>)
    ensures
        envs_view(r@) == launch_env(game@, settings@),
{
    let files = path_join(settings.proton_path.as_str(), "files");
    let bin = path_join(files.as_str(), "bin");
    let wine = path_join(bin.as_str(), "wine");
    let mut v: Vec<EnvVar> = Vec::new();
    v.push(env_var("WINEPREFIX", game.wineprefix_path.clone()));
    v.push(env_var("PROTONPATH", settings.proton_path.clone()));
    v.push(env_var("GAME_NAME", game.name.clone()));
    v.push(env_lit("WINEDEBUG", "-all"));
    v.push(env_lit("DXVK_LOG_LEVEL", "debug"));
    v.push(env_lit("PROTON_LOG", "1"));
    v.push(env_lit("UMU_LOG", "debug"));
    v.push(env_lit("WINEARCH", "win64"));
    v.push(env_var("WINE", wine));
    v.push(env_lit("WINEESYNC", "0"));
    v.push(env_lit("WINEFSYNC", "1"));
    v.push(env_lit("WINE_FULLSCREEN_FSR", "1"));
    v.push(env_lit("DXVK_NVAPIHACK", "0"));
    v.push(env_lit("DXVK_ENABLE_NVAPI", "1"));
    v.push(env_var("WINEDLLOVERRIDES", dll_overrides_text()));
    v.push(env_lit("WINE_LARGE_ADDRESS_AWARE", "1"));
    v.push(env_lit("STORE", "none"));
    v.push(env_lit("GAMEID", "umu-default"));
    v.push(env_lit("PROTON_VERB", "run"));
    assert(envs_view(v@) =~= launch_env(game@, settings@));
    v
}

/// Appends `s` to a list of arguments.
fn push_arg(args: &mut Vec<String>, s: String)
    ensures
        final(args).deep_view() == old(args).deep_view().push(s@),
{
    let ghost before = args.deep_view();
    args.push(s);
    assert(args.deep_view() =~= before.push(s@));
}

/// The flags that pass an environment to `flatpak-spawn`.
fn env_flags(envs: &Vec<EnvVar>) -> (r: Vec<String>)
    ensures
        r.deep_view() == envs_view(envs@).map_values(|kv: (Seq<char>, Seq<char>)| env_flag(kv)),
{
    let mut r: Vec<String> = Vec::new();
    let mut i: usize = 0;
    while i < envs.len()
        invariant
            i <= envs.len(),
            r.deep_view() == envs_view(envs@).take(i as int).map_values(
                |kv: (Seq<char>, Seq<char>)| env_flag(kv),
            ),
        decreases envs.len() - i,
    {
        let mut flag = String::from_str("--env=");
        flag.append(envs[i].key.as_str());
        flag.append("=");
        flag.append(envs[i].value.as_str());
        push_arg(&mut r, flag);
        assert(envs_view(envs@).take(i + 1) =~= envs_view(envs@).take(i as int).push(
            envs_view(envs@)[i as int],
        ));
        assert(r.deep_view() =~= envs_view(envs@).take(i + 1).map_values(
            |kv: (Seq<char>, Seq<char>)| env_flag(kv),
        ));
        i = i + 1;
    }
    assert(envs_view(envs@).take(envs.len() as int) =~= envs_view(envs@));
    r
}

/// The program that runs the game.
fn runner(game: &Game, umu_run: &String) -> (r: String)
    ensures
        r@ == game_runner(game@, umu_run@),
{
    if game.gamescope_config.is_some() {
        String::from_str("gamescope")
    } else {
        umu_run.clone()
    }
}

/// Appends the arguments that follow the program that runs the game.
fn push_game_args(args: &mut Vec<String>, game: &Game, umu_run: &String, exe_name: String)
    ensures
        final(args).deep_view() == old(args).deep_view() + game_args(game@, umu_run@, exe_name@),
{
    let ghost start = args.deep_view();
    match game.gamescope_config {
        Some(c) => {
            push_arg(args, String::from_str("-W"));
            push_arg(args, usize_to_string(c.output_width));
            push_arg(args, String::from_str("-H"));
            push_arg(args, usize_to_string(c.output_height));
            push_arg(args, String::from_str("-f"));
            push_arg(args, String::from_str("--force-grab-cursor"));
            push_arg(args, String::from_str("--"));
            push_arg(args, umu_run.clone());
            assert(args.deep_view() =~= start + gamescope_args(c, umu_run@));
        },
        None => {},
    }
    push_arg(args, exe_name);
    push_arg(args, game.extra_args.clone());
    assert(args.deep_view() =~= start + game_args(game@, umu_run@, exe_name@));
}

/// The command that launches `game` when its executable lies in `exe_dir`
/// under the name `exe_name`.
pub fn build_launch_command(
    game: &Game,
    settings: &Settings,
    inside_flatpak: bool,
    exe_dir: String,
    exe_name: String,
) -> (r: CommandSpec)
    ensures
        r@ == launch_command(game@, settings@, inside_flatpak, exe_dir@, exe_name@),
{
    let umu = path_join(settings.umu_path.as_str(), "umu-run");
    let envs = launch_environment(game, settings);
    let mut args: Vec<String> = Vec::new();
    if inside_flatpak {
        push_arg(&mut args, String::from_str("--host"));
        let flags = env_flags(&envs);
        let mut i: usize = 0;
        while i < flags.len()
            invariant
                i <= flags.len(),
                args.deep_view() == seq!["--host"@] + flags.deep_view().take(i as int),
            decreases flags.len() - i,
        {
            push_arg(&mut args, flags[i].clone());
            assert(flags.deep_view().take(i + 1) =~= flags.deep_view().take(i as int).push(
                flags.deep_view()[i as int],
            ));
            assert(args.deep_view() =~= seq!["--host"@] + flags.deep_view().take(i + 1));
            i = i + 1;
        }
        assert(flags.deep_view().take(flags.len() as int) =~= flags.deep_view());
        push_arg(&mut args, runner(game, &umu));
        push_game_args(&mut args, game, &umu, exe_name);
        let r = CommandSpec {
            program: String::from_str("flatpak-spawn"),
            args,
            envs: Vec::new(),
            current_dir: Some(exe_dir),
        };
        assert(r@.envs =~= Seq::<(Seq<char>, Seq<char>)>::empty());
        assert(r@.args =~= launch_command(game@, settings@, inside_flatpak, exe_dir@, exe_name@).args);
        r
    } else {
        let program = runner(game, &umu);
        push_game_args(&mut args, game, &umu, exe_name);
        assert(args.deep_view() =~= game_args(game@, umu@, exe_name@));
        CommandSpec { program, args, envs, current_dir: Some(exe_dir) }
    }
}

/// The command that launches a game given its outside-computed directory
/// and file name, when both exist.
pub open spec fn launch_command_for(g: GameView, s: SettingsView, inside_flatpak: bool) -> Option<
    CommandView,
> {
    match (parent_of(g.exe_path), file_name_of(g.exe_path)) {
        (Some(dir), Some(name)) => Some(launch_command(g, s, inside_flatpak, dir, name)),
        _ => None,
    }
}

/// The command that launches `game`, run in the directory of its
/// executable; no command when the executable's path has no parent
/// directory or no file name.
pub fn launch_game_command(game: &Game, settings: &Settings, inside_flatpak: bool) -> (r: Option<
    CommandSpec,
>)
    ensures
        r is Some <==> launch_command_for(game@, settings@, inside_flatpak) is Some,
        r matches Some(c) ==> launch_command_for(game@, settings@, inside_flatpak) == Some(c@),
{
    let dir = path_parent(game.exe_path.as_str());
    let name = path_file_name(game.exe_path.as_str());
    match (dir, name) {
        (Some(d), Some(n)) => Some(build_launch_command(game, settings, inside_flatpak, d, n)),
        _ => None,
    }
}

/// The command that opens winecfg for a game's prefix.
pub open spec fn winecfg_command(g: GameView, s: SettingsView) -> CommandView {
    CommandView {
        program: umu_run_path(s.umu_path),
        args: seq!["winecfg"@],
        envs: seq![
            ("WINEPREFIX"@, g.wineprefix_path),
            ("PROTONPATH"@, s.proton_path),
            ("PROTON_LOG"@, "1"@),
            ("WINEARCH"@, "win64"@),
        ],
        current_dir: None,
    }
}

/// The command that opens winecfg for `game`'s prefix.
pub fn build_winecfg_command(game: &Game, settings: &Settings) -> (r: CommandSpec)
    ensures
        r@ == winecfg_command(game@, settings@),
{
    let program = path_join(settings.umu_path.as_str(), "umu-run");
    let mut args: Vec<String> = Vec::new();
    push_arg(&mut args, String::from_str("winecfg"));
    let mut envs: Vec<EnvVar> = Vec::new();
    envs.push(env_var("WINEPREFIX", game.wineprefix_path.clone()));
    envs.push(env_var("PROTONPATH", settings.proton_path.clone()));
    envs.push(env_lit("PROTON_LOG", "1"));
    envs.push(env_lit("WINEARCH", "win64"));
    let r = CommandSpec { program, args, envs, current_dir: None };
    assert(r@.args =~= seq!["winecfg"@]);
    assert(r@.envs =~= winecfg_command(game@, settings@).envs);
    r
}

/// The shell probe that succeeds exactly when `program` can be found.
pub open spec fn probe_command(program: Seq<char>) -> CommandView {
    CommandView {
        program: "sh"@,
        args: seq!["-c"@, "command -v "@ + program + " >/dev/null 2>&1"@],
        envs: Seq::empty(),
        current_dir: None,
    }
}

/// The shell probe for `program`.
pub fn build_probe_command(program: &str) -> (r: CommandSpec)
    ensures
        r@ == probe_command(program@),
{
    let mut script = String::from_str("command -v ");
    script.append(program);
    script.append(" >/dev/null 2>&1");
    let mut args: Vec<String> = Vec::new();
    push_arg(&mut args, String::from_str("-c"));
    push_arg(&mut args, script);
    let r = CommandSpec { program: String::from_str("sh"), args, envs: Vec::new(), current_dir: None };
    assert(r@.args =~= probe_command(program@).args);
    assert(r@.envs =~= Seq::<(Seq<char>, Seq<char>)>::empty());
    r
}

/// Whether a probe's exit code says the program was found: it exited, with
/// status 0.
pub fn probe_found(code: Option<i32>) -> (r: bool)
    ensures
        r == (code == Some(0i32)),
{
    match code {
        Some(c) => c == 0,
        None => false,
    }
}

} // verus!
