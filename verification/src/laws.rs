//! Properties that tie the launcher's functions together.

use vstd::prelude::*;
use crate::launch::{env_flag, game_args, game_runner, launch_command, launch_env, umu_run_path};
use crate::form::{GameFormView, form_game, size_or, DEFAULT_GAMESCOPE_WIDTH, DEFAULT_GAMESCOPE_HEIGHT};
use crate::library::{games_after_remove, games_after_save, path_warnings};
use crate::model::{GameView, GamescopeConfig, SettingsView, Timestamp, first_index_of, holds_game, same_game};
use crate::text::{lemma_parse_decimal_roundtrip, parse_unsigned};
use crate::session::{
    after_log_line, changes_record, finished_at, games_after_launched_line,
    launched_line_acceptable, started_after, started_at, elapsed_secs, exit_report_lines, header_lines, is_exit_marker,
    is_launch_marker, line_acceptable,
};

verus! {

/// No line is both a launch marker and an exit marker.
pub proof fn lemma_markers_disjoint(line: Seq<char>)
    ensures
        !(is_launch_marker(line) && is_exit_marker(line)),
{
    reveal_strlit("Proton: ");
    reveal_strlit("PROCESS EXITED");
    if is_launch_marker(line) && is_exit_marker(line) {
        assert(line.subrange(0, 8)[1] == 'r');
        assert(line.subrange(0, 14)[1] == 'R');
    }
}

/// A session's playtime: when the launch marker is read at `start` and the
/// exit marker at `end`, the game's playtime grows by the whole seconds
/// between the two, its last play becomes `end`, and nothing else changes.
pub proof fn lemma_session_adds_elapsed_time(
    g: GameView,
    launch_line: Seq<char>,
    exit_line: Seq<char>,
    start: Timestamp,
    end: Timestamp,
)
    requires
        is_launch_marker(launch_line),
        is_exit_marker(exit_line),
        g.duration_played + elapsed_secs(start, end) <= u64::MAX,
    ensures
        line_acceptable(g, launch_line, start),
        line_acceptable(after_log_line(g, launch_line, start), exit_line, end),
        ({
            let g2 = after_log_line(after_log_line(g, launch_line, start), exit_line, end);
            &&& g2.duration_played == g.duration_played + elapsed_secs(start, end)
            &&& g2.last_played == Some(end)
            &&& g2.name == g.name
            &&& g2.cover_path == g.cover_path
            &&& g2.exe_path == g.exe_path
            &&& g2.wineprefix_path == g.wineprefix_path
            &&& g2.extra_args == g.extra_args
            &&& g2.gamescope_config == g.gamescope_config
        }),
{
    lemma_markers_disjoint(launch_line);
    lemma_markers_disjoint(exit_line);
}

/// When some game equals `g`, the first one does: it equals `g` and no
/// earlier game does.
pub proof fn lemma_first_index_found(games: Seq<GameView>, g: GameView)
    requires
        holds_game(games, g),
    ensures
        0 <= first_index_of(games, g) < games.len(),
        same_game(games[first_index_of(games, g)], g),
        forall|j: int| 0 <= j < first_index_of(games, g) ==> !same_game(games[j], g),
{
    let k = choose|k: int| 0 <= k < games.len() && same_game(#[trigger] games[k], g);
    lemma_first_below(games, g, k);
}

proof fn lemma_first_below(games: Seq<GameView>, g: GameView, k: int)
    requires
        0 <= k < games.len(),
        same_game(games[k], g),
    ensures
        exists|i: int|
            0 <= i < games.len() && same_game(games[i], g) && forall|j: int|
                0 <= j < i ==> !same_game(games[j], g),
    decreases k,
{
    if exists|j: int| 0 <= j < k && same_game(#[trigger] games[j], g) {
        let j = choose|j: int| 0 <= j < k && same_game(#[trigger] games[j], g);
        lemma_first_below(games, g, j);
    } else {
        assert(forall|j: int| 0 <= j < k ==> !same_game(games[j], g));
    }
}

/// A session launched for a game in the list: when the launch marker is
/// read at `start` and the exit marker at `end`, the first game equal to it
/// gets the whole seconds between the two added to its playtime and `end` as
/// its last play; no other game changes.
pub proof fn lemma_launched_session_adds_elapsed_time(
    games: Seq<GameView>,
    g: GameView,
    started: Option<usize>,
    launch_line: Seq<char>,
    exit_line: Seq<char>,
    start: Timestamp,
    end: Timestamp,
)
    requires
        games.len() <= usize::MAX,
        holds_game(games, g),
        is_launch_marker(launch_line),
        is_exit_marker(exit_line),
        games[first_index_of(games, g)].duration_played + elapsed_secs(start, end) <= u64::MAX,
    ensures
        ({
            let i = first_index_of(games, g);
            let games1 = games_after_launched_line(games, g, started, launch_line, start);
            let started1 = started_after(games, g, started, launch_line);
            let games2 = games_after_launched_line(games1, g, started1, exit_line, end);
            &&& launched_line_acceptable(games, g, started, launch_line, start)
            &&& launched_line_acceptable(games1, g, started1, exit_line, end)
            &&& started1 == Some(i as usize)
            &&& games2.len() == games.len()
            &&& games2[i].duration_played == games[i].duration_played + elapsed_secs(start, end)
            &&& games2[i].last_played == Some(end)
            &&& games2[i].name == games[i].name
            &&& games2[i].exe_path == games[i].exe_path
            &&& forall|j: int| 0 <= j < games.len() && j != i ==> games2[j] == games[j]
        }),
{
    lemma_first_index_found(games, g);
    lemma_markers_disjoint(launch_line);
    lemma_markers_disjoint(exit_line);
    let i = first_index_of(games, g);
    let games1 = games_after_launched_line(games, g, started, launch_line, start);
    assert(games1 == games.update(i, started_at(games[i], start)));
    assert(games1[i].last_played == Some(start));
    let started1 = started_after(games, g, started, launch_line);
    let games2 = games_after_launched_line(games1, g, started1, exit_line, end);
    assert(games2 == games1.update(i, finished_at(games1[i], end)));
}

/// A line that is neither marker leaves the record as it was.
pub proof fn lemma_other_lines_keep_record(g: GameView, line: Seq<char>, now: Timestamp)
    requires
        !changes_record(line),
    ensures
        after_log_line(g, line, now) == g,
        line_acceptable(g, line, now),
{
}

/// Playtime never goes down, whatever line is read.
pub proof fn lemma_playtime_monotone(g: GameView, line: Seq<char>, now: Timestamp)
    requires
        line_acceptable(g, line, now),
    ensures
        after_log_line(g, line, now).duration_played >= g.duration_played,
{
}

/// A clock that did not move forward adds no playtime.
pub proof fn lemma_no_time_no_playtime(start: Timestamp, end: Timestamp)
    requires
        start.nanos < 1_000_000_000,
        end.nanos < 1_000_000_000,
        end.secs < start.secs || (end.secs == start.secs && end.nanos <= start.nanos),
    ensures
        elapsed_secs(start, end) == 0,
{
}

/// The report that closes a session ends the session: of its lines, the
/// second is an exit marker and no other line changes the record.
pub proof fn lemma_exit_report_ends_session(code: i32)
    ensures
        exit_report_lines(Some(code)).len() == 3,
        is_exit_marker(exit_report_lines(Some(code))[1]),
        !changes_record(exit_report_lines(Some(code))[0]),
        !changes_record(exit_report_lines(Some(code))[2]),
{
    reveal_strlit("PROCESS EXITED WITH STATUS CODE ");
    reveal_strlit("PROCESS EXITED");
    reveal_strlit("Proton: ");
    reveal_strlit("-------------------\n");
    reveal_strlit("-------------------\n\n\n");
    let lines = exit_report_lines(Some(code));
    let l1 = lines[1];
    assert(l1.subrange(0, 14) =~= "PROCESS EXITED"@);
    assert(lines[0].subrange(0, 8)[0] != 'P');
    assert(lines[2].subrange(0, 8)[0] != 'P');
    assert(lines[0].subrange(0, 14)[0] != 'P');
    assert(lines[2].subrange(0, 14)[0] != 'P');
}

/// The clock line and the RUNNING line that open a session's log never
/// change the record.
pub proof fn lemma_header_keeps_record(clock: Seq<char>, command: Seq<char>)
    ensures
        !changes_record(header_lines(clock, command)[0]),
        !changes_record(header_lines(clock, command)[1]),
{
    reveal_strlit("[");
    reveal_strlit("  RUNNING\n");
    reveal_strlit("PROCESS EXITED");
    reveal_strlit("Proton: ");
    let lines = header_lines(clock, command);
    assert(lines[0][0] == '[');
    assert(lines[0].len() >= 8 ==> lines[0].subrange(0, 8)[0] != 'P');
    assert(lines[0].len() >= 14 ==> lines[0].subrange(0, 14)[0] != 'P');
    assert(lines[1].len() == 10);
    assert(lines[1].subrange(0, 8)[0] == ' ');
}

/// Inside a Flatpak sandbox the launcher runs the same command on the host:
/// `flatpak-spawn --host`, then one `--env=KEY=VALUE` flag for each variable
/// the direct command sets, in the same order, then the direct command's
/// program and arguments, in the same directory.
pub proof fn lemma_flatpak_runs_same_command(
    g: GameView,
    s: SettingsView,
    exe_dir: Seq<char>,
    exe_name: Seq<char>,
)
    ensures
        ({
            let direct = launch_command(g, s, false, exe_dir, exe_name);
            let sandboxed = launch_command(g, s, true, exe_dir, exe_name);
            let n = direct.envs.len() as int;
            &&& sandboxed.program == "flatpak-spawn"@
            &&& sandboxed.envs.len() == 0
            &&& sandboxed.args.len() == 2 + n + direct.args.len()
            &&& sandboxed.args[0] == "--host"@
            &&& forall|i: int| 0 <= i < n ==> sandboxed.args[1 + i] == env_flag(direct.envs[i])
            &&& sandboxed.args[1 + n] == direct.program
            &&& sandboxed.args.subrange(2 + n, sandboxed.args.len() as int) == direct.args
            &&& sandboxed.current_dir == direct.current_dir
        }),
{
    let direct = launch_command(g, s, false, exe_dir, exe_name);
    let sandboxed = launch_command(g, s, true, exe_dir, exe_name);
    let n = direct.envs.len() as int;
    let umu = umu_run_path(s.umu_path);
    let flags = launch_env(g, s).map_values(|kv: (Seq<char>, Seq<char>)| env_flag(kv));
    assert(sandboxed.args =~= seq!["--host"@] + flags + seq![game_runner(g, umu)] + game_args(
        g,
        umu,
        exe_name,
    ));
    assert forall|i: int| 0 <= i < n implies sandboxed.args[1 + i] == env_flag(direct.envs[i]) by {
        assert(sandboxed.args[1 + i] == flags[i]);
    }
    assert(sandboxed.args.subrange(2 + n, sandboxed.args.len() as int) =~= direct.args);
}

/// Both ways of launching end with the executable's file name and then the
/// game's extra arguments.
pub proof fn lemma_launch_ends_with_game(
    g: GameView,
    s: SettingsView,
    inside_flatpak: bool,
    exe_dir: Seq<char>,
    exe_name: Seq<char>,
)
    ensures
        ({
            let c = launch_command(g, s, inside_flatpak, exe_dir, exe_name);
            &&& c.args.len() >= 2
            &&& c.args[c.args.len() - 2] == exe_name
            &&& c.args[c.args.len() - 1] == g.extra_args
        }),
{
}

/// The playtime a session adds is the whole seconds it lasted: `s` whole
/// seconds and a fraction of one give exactly `s`; a session of no positive
/// length gives 0; one longer than `u64::MAX` seconds gives `u64::MAX`.
pub proof fn lemma_elapsed_counts_whole_seconds(from: Timestamp, to: Timestamp)
    requires
        from.nanos < 1_000_000_000,
        to.nanos < 1_000_000_000,
    ensures
        ({
            let total: int = (to.secs - from.secs) * 1_000_000_000 + to.nanos - from.nanos;
            let s = elapsed_secs(from, to);
            &&& (0 <= total && total < (u64::MAX + 1) * 1_000_000_000) ==> (s * 1_000_000_000
                <= total && total < s * 1_000_000_000 + 1_000_000_000)
            &&& total <= 0 ==> s == 0
            &&& total >= (u64::MAX + 1) * 1_000_000_000 ==> s == u64::MAX
        }),
{
    let total: int = (to.secs - from.secs) * 1_000_000_000 + to.nanos - from.nanos;
    let q = total / 1_000_000_000;
    assert(q * 1_000_000_000 <= total < q * 1_000_000_000 + 1_000_000_000) by (nonlinear_arith)
        requires
            q == total / 1_000_000_000,
    ;
    if 0 <= total && total < (u64::MAX + 1) * 1_000_000_000 {
        assert(q <= u64::MAX) by (nonlinear_arith)
            requires
                q * 1_000_000_000 <= total,
                total < (u64::MAX + 1) * 1_000_000_000,
        ;
    }
    if total >= (u64::MAX + 1) * 1_000_000_000 {
        assert(q > u64::MAX) by (nonlinear_arith)
            requires
                total < q * 1_000_000_000 + 1_000_000_000,
                total >= (u64::MAX + 1) * 1_000_000_000,
        ;
    }
}

/// Two instants at the same fraction of a second lie exactly the difference
/// of their seconds apart.
pub proof fn lemma_elapsed_same_fraction(from: Timestamp, to: Timestamp)
    requires
        from.nanos == to.nanos,
        0 <= to.secs - from.secs <= u64::MAX,
    ensures
        elapsed_secs(from, to) == to.secs - from.secs,
{
    let d: int = to.secs - from.secs;
    assert((d * 1_000_000_000) / 1_000_000_000 == d) by (nonlinear_arith);
}

/// A session whose launch and exit markers are read at the same fraction of
/// a second adds exactly the difference of their seconds to the playtime.
pub proof fn lemma_session_adds_seconds_played(
    g: GameView,
    launch_line: Seq<char>,
    exit_line: Seq<char>,
    start: Timestamp,
    end: Timestamp,
)
    requires
        is_launch_marker(launch_line),
        is_exit_marker(exit_line),
        start.nanos == end.nanos,
        0 <= end.secs - start.secs,
        g.duration_played + (end.secs - start.secs) <= u64::MAX,
    ensures
        after_log_line(after_log_line(g, launch_line, start), exit_line, end).duration_played
            == g.duration_played + (end.secs - start.secs),
        after_log_line(after_log_line(g, launch_line, start), exit_line, end).last_played == Some(
            end,
        ),
{
    lemma_elapsed_same_fraction(start, end);
    lemma_session_adds_elapsed_time(g, launch_line, exit_line, start, end);
}

/// Under gamescope, the launch arguments (after `flatpak-spawn`'s own, from
/// inside a sandbox) start with `-W`, a text that reads back as the
/// configured width, `-H`, and a text that reads back as the configured
/// height.
pub proof fn lemma_gamescope_size_arguments(
    g: GameView,
    s: SettingsView,
    inside_flatpak: bool,
    exe_dir: Seq<char>,
    exe_name: Seq<char>,
)
    requires
        g.gamescope_config is Some,
    ensures
        ({
            let c = g.gamescope_config->0;
            let cmd = launch_command(g, s, inside_flatpak, exe_dir, exe_name);
            let k: int = if inside_flatpak { 2 + launch_env(g, s).len() as int } else { 0int };
            &&& inside_flatpak ==> cmd.args[k - 1] == "gamescope"@
            &&& !inside_flatpak ==> cmd.program == "gamescope"@
            &&& cmd.args.len() >= k + 4
            &&& cmd.args[k] == "-W"@
            &&& parse_unsigned(cmd.args[k + 1], usize::MAX as nat) == Some(c.output_width as nat)
            &&& cmd.args[k + 2] == "-H"@
            &&& parse_unsigned(cmd.args[k + 3], usize::MAX as nat) == Some(c.output_height as nat)
        }),
{
    let c = g.gamescope_config->0;
    lemma_parse_decimal_roundtrip(c.output_width as nat);
    lemma_parse_decimal_roundtrip(c.output_height as nat);
    let umu = umu_run_path(s.umu_path);
    let flags = launch_env(g, s).map_values(|kv: (Seq<char>, Seq<char>)| env_flag(kv));
    let cmd = launch_command(g, s, inside_flatpak, exe_dir, exe_name);
    if inside_flatpak {
        assert(cmd.args =~= seq!["--host"@] + flags + seq![game_runner(g, umu)] + game_args(
            g,
            umu,
            exe_name,
        ));
    }
}

/// Saving the page that edits the game at `i` puts the form's name, paths,
/// extra arguments and gamescope choice on that game and keeps its playtime;
/// the other games stay. Saving the page that adds a game appends one with
/// the form's fields and no playtime.
pub proof fn lemma_saved_form_takes_its_fields(
    games: Seq<GameView>,
    f: GameFormView,
    index: Option<usize>,
)
    requires
        index matches Some(i) ==> i < games.len(),
    ensures
        ({
            let r = games_after_save(games, form_game(f), index);
            let i: int = match index {
                Some(i) => i as int,
                None => games.len() as int,
            };
            &&& r.len() == (if index is Some { games.len() } else { games.len() + 1 })
            &&& r[i].name == f.name
            &&& r[i].cover_path == f.cover_path
            &&& r[i].exe_path == f.exe_path
            &&& r[i].wineprefix_path == f.wineprefix_path
            &&& r[i].extra_args == f.extra_args
            &&& (r[i].gamescope_config is Some <==> f.use_gamescope)
            &&& f.use_gamescope ==> r[i].gamescope_config == Some(
                GamescopeConfig {
                    output_width: size_or(f.gamescope_width, DEFAULT_GAMESCOPE_WIDTH as nat) as usize,
                    output_height: size_or(f.gamescope_height, DEFAULT_GAMESCOPE_HEIGHT as nat)
                        as usize,
                },
            )
            &&& index is Some ==> (r[i].last_played == games[i].last_played
                && r[i].duration_played == games[i].duration_played)
            &&& index is None ==> (r[i].last_played is None && r[i].duration_played == 0)
            &&& forall|j: int| 0 <= j < games.len() && j != i ==> r[j] == games[j]
        }),
{
}

/// Equal games have the same name, extra arguments, gamescope configuration
/// and playtime: games that differ in any of these are never taken for one
/// another.
pub proof fn lemma_equal_games_agree(a: GameView, b: GameView)
    requires
        same_game(a, b),
    ensures
        a.name == b.name,
        a.extra_args == b.extra_args,
        a.gamescope_config == b.gamescope_config,
        a.last_played == b.last_played,
        a.duration_played == b.duration_played,
{
}

/// Removing a game takes out exactly one game, the first equal to it, which
/// has its name, extra arguments, gamescope configuration and playtime; the
/// others keep their order. With no equal game nothing changes.
pub proof fn lemma_remove_takes_first_equal(games: Seq<GameView>, g: GameView)
    ensures
        holds_game(games, g) ==> ({
            let k = first_index_of(games, g);
            &&& 0 <= k < games.len()
            &&& games_after_remove(games, g) == games.remove(k)
            &&& games[k].name == g.name
            &&& games[k].extra_args == g.extra_args
            &&& games[k].gamescope_config == g.gamescope_config
            &&& games[k].last_played == g.last_played
            &&& games[k].duration_played == g.duration_played
            &&& forall|j: int| 0 <= j < k ==> !same_game(games[j], g)
        }),
        !holds_game(games, g) ==> games_after_remove(games, g) == games,
{
    if holds_game(games, g) {
        lemma_first_index_found(games, g);
    }
}

/// The banner's two checks are independent: each warning is shown exactly
/// when its own path is unset, or set but missing, whatever the other path
/// is.
pub proof fn lemma_warnings_independent(s: SettingsView, proton_exists: bool, umu_exists: bool)
    ensures
        ({
            let w = path_warnings(s, proton_exists, umu_exists);
            &&& w.contains("Proton Path is not set"@) <==> s.proton_path.len() == 0
            &&& w.contains("Proton Path does not exist"@) <==> (s.proton_path.len() > 0
                && !proton_exists)
            &&& w.contains("UMU Path is not set"@) <==> s.umu_path.len() == 0
            &&& w.contains("UMU Path does not exist"@) <==> (s.umu_path.len() > 0 && !umu_exists)
            &&& w.len() == (if s.proton_path.len() == 0 || !proton_exists { 1int } else { 0 }) + (
            if s.umu_path.len() == 0 || !umu_exists { 1int } else { 0 })
        }),
{
    reveal_strlit("Proton Path is not set");
    reveal_strlit("Proton Path does not exist");
    reveal_strlit("UMU Path is not set");
    reveal_strlit("UMU Path does not exist");
    let a = "Proton Path is not set"@;
    let b = "Proton Path does not exist"@;
    let c = "UMU Path is not set"@;
    let d = "UMU Path does not exist"@;
    assert(a.len() == 22 && b.len() == 26 && c.len() == 19 && d.len() == 23);
    let w = path_warnings(s, proton_exists, umu_exists);
    let first: Seq<Seq<char>> = if s.proton_path.len() == 0 {
        seq![a]
    } else if !proton_exists {
        seq![b]
    } else {
        Seq::empty()
    };
    let second: Seq<Seq<char>> = if s.umu_path.len() == 0 {
        seq![c]
    } else if !umu_exists {
        seq![d]
    } else {
        Seq::empty()
    };
    assert(w == first + second);
    assert forall|x: Seq<char>| w.contains(x) <==> (first.contains(x) || second.contains(x)) by {
        if w.contains(x) {
            let i = choose|i: int| 0 <= i < w.len() && w[i] == x;
            if i < first.len() {
                assert(first[i] == x);
            } else {
                assert(second[i - first.len()] == x);
            }
        }
        if first.contains(x) {
            let i = choose|i: int| 0 <= i < first.len() && first[i] == x;
            assert(w[i] == x);
        }
        if second.contains(x) {
            let i = choose|i: int| 0 <= i < second.len() && second[i] == x;
            assert(w[first.len() + i] == x);
        }
    }
    if s.proton_path.len() == 0 {
        assert(first[0] == a);
    } else if !proton_exists {
        assert(first[0] == b);
    }
    if s.umu_path.len() == 0 {
        assert(second[0] == c);
    } else if !umu_exists {
        assert(second[0] == d);
    }
}

} // verus!
