//! A launched game's session: the lines its log shows, and what they do to
//! the game's playtime record.

use vstd::prelude::*;
use vstd::utf8::*;
use vstd::string::StringSliceAdditionalSpecFns;
use crate::model::{AppData, Game, GameView, Timestamp, first_index_of, holds_game, lemma_remove_insert_is_update};
use crate::text::{ends_with, has_prefix, has_suffix, i32_to_string, signed_decimal, starts_with};

verus! {

/// Nanoseconds in one second.
pub const NANOS_PER_SEC: i128 = 1_000_000_000;

/// The difference `to - from` in nanoseconds.
pub open spec fn nanos_between(from: Timestamp, to: Timestamp) -> int {
    (to.secs - from.secs) * 1_000_000_000 + (to.nanos - from.nanos)
}

/// The whole seconds from `from` to `to`, counted toward zero; a clock that
/// went backwards gives 0, and more than `u64::MAX` seconds give `u64::MAX`.
pub open spec fn elapsed_secs(from: Timestamp, to: Timestamp) -> nat {
    let d = nanos_between(from, to);
    if d <= 0 {
        0
    } else if d / 1_000_000_000 > u64::MAX {
        u64::MAX as nat
    } else {
        (d / 1_000_000_000) as nat
    }
}

/// The whole seconds that passed from `from` to `to`.
pub fn elapsed_seconds(from: Timestamp, to: Timestamp) -> (r: u64)
    ensures
        r == elapsed_secs(from, to),
{
    let ds: i128 = to.secs as i128 - from.secs as i128;
    let dn: i128 = to.nanos as i128 - from.nanos as i128;
    let total: i128 = ds * NANOS_PER_SEC + dn;
    if total <= 0 {
        0
    } else {
        let whole: i128 = total / NANOS_PER_SEC;
        if whole > u64::MAX as i128 {
            u64::MAX
        } else {
            whole as u64
        }
    }
}

/// The line that Proton prints when it starts a game's executable.
pub open spec fn is_launch_marker(line: Seq<char>) -> bool {
    has_prefix(line, "Proton: "@) && has_suffix(line, "exe\n"@)
}

/// The line that closes a session's log.
pub open spec fn is_exit_marker(line: Seq<char>) -> bool {
    has_prefix(line, "PROCESS EXITED"@)
}

/// Whether a log line is a launch marker.
pub fn launch_marker(line: &str) -> (r: bool)
    ensures
        r == is_launch_marker(line@),
{
    starts_with(line, "Proton: ") && ends_with(line, "exe\n")
}

/// Whether a log line is an exit marker.
pub fn exit_marker(line: &str) -> (r: bool)
    ensures
        r == is_exit_marker(line@),
{
    starts_with(line, "PROCESS EXITED")
}

/// A game whose last start is `now`.
pub open spec fn started_at(g: GameView, now: Timestamp) -> GameView {
    GameView {
        name: g.name,
        cover_path: g.cover_path,
        exe_path: g.exe_path,
        wineprefix_path: g.wineprefix_path,
        extra_args: g.extra_args,
        gamescope_config: g.gamescope_config,
        last_played: Some(now),
        duration_played: g.duration_played,
    }
}

/// A game whose session, started at its `last_played`, ends at `now`: the
/// elapsed seconds are added to its playtime and `now` becomes its last play.
pub open spec fn finished_at(g: GameView, now: Timestamp) -> GameView {
    GameView {
        name: g.name,
        cover_path: g.cover_path,
        exe_path: g.exe_path,
        wineprefix_path: g.wineprefix_path,
        extra_args: g.extra_args,
        gamescope_config: g.gamescope_config,
        last_played: Some(now),
        duration_played: (g.duration_played + elapsed_secs(g.last_played.unwrap(), now)) as u64,
    }
}

/// The game after the launch-marker check of a log line.
pub open spec fn after_launch_check(g: GameView, line: Seq<char>, now: Timestamp) -> GameView {
    if is_launch_marker(line) {
        started_at(g, now)
    } else {
        g
    }
}

/// A game's record after one log line of its session, read at `now`.
pub open spec fn after_log_line(g: GameView, line: Seq<char>, now: Timestamp) -> GameView {
    let g1 = after_launch_check(g, line, now);
    if is_exit_marker(line) {
        finished_at(g1, now)
    } else {
        g1
    }
}

/// Whether a log line changes the record, which then has to be saved.
pub open spec fn changes_record(line: Seq<char>) -> bool {
    is_launch_marker(line) || is_exit_marker(line)
}

/// When a log line can be taken: an exit marker needs a recorded start, and
/// the playtime must stay within `u64`.
pub open spec fn line_acceptable(g: GameView, line: Seq<char>, now: Timestamp) -> bool {
    let g1 = after_launch_check(g, line, now);
    is_exit_marker(line) ==> (g1.last_played is Some && g1.duration_played + elapsed_secs(
        g1.last_played.unwrap(),
        now,
    ) <= u64::MAX)
}

impl Game {
    /// Takes one log line of this game's session, read at `now`; returns
    /// whether the record changed and has to be saved.
    pub fn record_log_line(&mut self, line: &str, now: Timestamp) -> (save: bool)
        requires
            line_acceptable(old(self)@, line@, now),
        ensures
            final(self)@ == after_log_line(old(self)@, line@, now),
            save == changes_record(line@),
    {
        let started = launch_marker(line);
        if started {
            self.last_played = Some(now);
        }
        let ended = exit_marker(line);
        if ended {
            let last = self.last_played.unwrap();
            let played = elapsed_seconds(last, now);
            self.last_played = Some(now);
            self.duration_played = self.duration_played + played;
        }
        started || ended
    }
}

impl AppData {
    /// Takes one log line of the session of the game at `index`, read at
    /// `now`; the other games and the settings stay as they are. Returns
    /// whether the data changed and has to be saved.
    pub fn record_session_line(&mut self, index: usize, line: &str, now: Timestamp) -> (save:
        bool)
        requires
            index < old(self)@.games.len(),
            line_acceptable(old(self)@.games[index as int], line@, now),
        ensures
            final(self)@.games == old(self)@.games.update(
                index as int,
                after_log_line(old(self)@.games[index as int], line@, now),
            ),
            final(self)@.settings == old(self)@.settings,
            save == changes_record(line@),
    {
        let ghost before = self@.games;
        let mut game = self.take_game(index);
        let save = game.record_log_line(line, now);
        self.put_game(index, game);
        proof {
            lemma_remove_insert_is_update(before, index as int, after_log_line(before[index as int], line@, now));
        }
        save
    }

    /// Takes one log line of a session launched for `game`, read at `now`.
    /// `started` is where the session's game stands in the list, once known:
    /// the launch marker finds the first game equal to `game`, records the
    /// start on it and remembers its index; the exit marker then finishes the
    /// session of the game at that index, as [`AppData::record_session_line`]
    /// does. Returns whether the data changed and has to be saved.
    pub fn record_launched_line(
        &mut self,
        game: &Game,
        started: &mut Option<usize>,
        line: &str,
        now: Timestamp,
    ) -> (save: bool)
        requires
            launched_line_acceptable(old(self)@.games, game@, *old(started), line@, now),
        ensures
            final(self)@.games == games_after_launched_line(
                old(self)@.games,
                game@,
                *old(started),
                line@,
                now,
            ),
            *final(started) == started_after(old(self)@.games, game@, *old(started), line@),
            final(self)@.settings == old(self)@.settings,
            save == launched_line_changes(old(self)@.games, game@, *old(started), line@, now),
    {
        let ghost games0 = self@.games;
        let mut save = false;
        if launch_marker(line) {
            match self.position_of(game) {
                Some(i) => {
                    let mut g = self.take_game(i);
                    g.last_played = Some(now);
                    self.put_game(i, g);
                    proof {
                        lemma_remove_insert_is_update(games0, i as int, started_at(games0[i as int], now));
                    }
                    *started = Some(i);
                    save = true;
                },
                None => {},
            }
        }
        let ghost games1 = self@.games;
        assert(games1 == games_after_launch_of(games0, game@, line@, now));
        if exit_marker(line) {
            if let Some(i) = *started {
                if i < self.games.len() && self.games[i].last_played.is_some() {
                    proof {
                        crate::laws::lemma_markers_disjoint(line@);
                        assert(games1[i as int].last_played is Some);
                    }
                    let _ = self.record_session_line(i, line, now);
                    save = true;
                }
            }
        }
        save
    }
}

/// Where a launched session's game stands after a line: a launch marker
/// fixes it at the first game equal to `g`, when there is one.
pub open spec fn started_after(
    games: Seq<GameView>,
    g: GameView,
    started: Option<usize>,
    line: Seq<char>,
) -> Option<usize> {
    if is_launch_marker(line) && holds_game(games, g) {
        Some(first_index_of(games, g) as usize)
    } else {
        started
    }
}

/// The games after the launch-marker check of a launched session's line.
pub open spec fn games_after_launch_of(
    games: Seq<GameView>,
    g: GameView,
    line: Seq<char>,
    now: Timestamp,
) -> Seq<GameView> {
    if is_launch_marker(line) && holds_game(games, g) {
        let i = first_index_of(games, g);
        games.update(i, started_at(games[i], now))
    } else {
        games
    }
}

/// Whether a line ends the launched session: it is an exit marker and the
/// session's game, at its remembered index, has a recorded start.
pub open spec fn ends_session(games: Seq<GameView>, started: Option<usize>, line: Seq<char>) -> bool {
    &&& is_exit_marker(line)
    &&& started is Some
    &&& started->0 < games.len()
    &&& games[started->0 as int].last_played is Some
}

/// The games after one line of a session launched for `g`.
pub open spec fn games_after_launched_line(
    games: Seq<GameView>,
    g: GameView,
    started: Option<usize>,
    line: Seq<char>,
    now: Timestamp,
) -> Seq<GameView> {
    let gs = games_after_launch_of(games, g, line, now);
    let st = started_after(games, g, started, line);
    if ends_session(gs, st, line) {
        gs.update(st->0 as int, after_log_line(gs[st->0 as int], line, now))
    } else {
        gs
    }
}

/// Whether a line of a session launched for `g` changes the data.
pub open spec fn launched_line_changes(
    games: Seq<GameView>,
    g: GameView,
    started: Option<usize>,
    line: Seq<char>,
    now: Timestamp,
) -> bool {
    (is_launch_marker(line) && holds_game(games, g)) || ends_session(
        games_after_launch_of(games, g, line, now),
        started_after(games, g, started, line),
        line,
    )
}

/// When a line of a session launched for `g` can be taken: the playtime of
/// the game whose session it ends must stay within `u64`.
pub open spec fn launched_line_acceptable(
    games: Seq<GameView>,
    g: GameView,
    started: Option<usize>,
    line: Seq<char>,
    now: Timestamp,
) -> bool {
    let gs = games_after_launch_of(games, g, line, now);
    let st = started_after(games, g, started, line);
    ends_session(gs, st, line) ==> gs[st->0 as int].duration_played + elapsed_secs(
        gs[st->0 as int].last_played.unwrap(),
        now,
    ) <= u64::MAX
}

/// The lines that close a session's log, given the process's exit code:
/// nothing when the process was ended by a signal.
pub open spec fn exit_report_lines(code: Option<i32>) -> Seq<Seq<char>> {
    match code {
        Some(c) => seq![
            "-------------------\n"@,
            "PROCESS EXITED WITH STATUS CODE "@ + signed_decimal(c as int) + "\n"@,
            "-------------------\n\n\n"@,
        ],
        None => Seq::empty(),
    }
}

/// The lines that close a session's log.
pub fn exit_report(code: Option<i32>) -> (r: Vec<String>)
    ensures
        r.deep_view() == exit_report_lines(code),
{
    let mut v: Vec<String> = Vec::new();
    if let Some(c) = code {
        v.push(String::from_str("-------------------\n"));
        let mut line = String::from_str("PROCESS EXITED WITH STATUS CODE ");
        line.append(i32_to_string(c).as_str());
        line.append("\n");
        v.push(line);
        v.push(String::from_str("-------------------\n\n\n"));
        assert(v.deep_view() =~= exit_report_lines(code));
    } else {
        assert(v.deep_view() =~= exit_report_lines(code));
    }
    v
}

/// The lines that open a session's log: the local clock in brackets, the
/// word RUNNING, and the command that was started.
pub open spec fn header_lines(clock: Seq<char>, command: Seq<char>) -> Seq<Seq<char>> {
    seq!["["@ + clock + "]"@, "  RUNNING\n"@, command + "\n\n"@]
}

/// The lines that open a session's log.
pub fn session_header(clock: &str, command: &str) -> (r: Vec<String>)
    ensures
        r.deep_view() == header_lines(clock@, command@),
{
    let mut v: Vec<String> = Vec::new();
    let mut first = String::from_str("[");
    first.append(clock);
    first.append("]");
    v.push(first);
    v.push(String::from_str("  RUNNING\n"));
    let mut last = String::from_str(command);
    last.append("\n\n");
    v.push(last);
    assert(v.deep_view() =~= header_lines(clock@, command@));
    v
}

/// Whether a text has nothing for the escape stripper to take out: every
/// character is a newline or neither a C0 control (ESC among them) nor a C1
/// control.
pub open spec fn is_plain_text(s: Seq<char>) -> bool {
    forall|i: int|
        0 <= i < s.len() ==> (#[trigger] s[i] == '\n' || (' ' <= s[i] && !('\u{80}' <= s[i] && s[i]
            <= '\u{9f}')))
}

/// The bytes that `strip_ansi_escapes::strip` leaves of `data`.
pub uninterp spec fn ansi_stripped(data: Seq<u8>) -> Seq<u8>;

/// `strip_ansi_escapes::strip`: removes ANSI escape sequences. Its result is
/// named, not described in general. Two facts come from the source: it writes
/// nothing but whole characters (each as its UTF-8 encoding) and newlines to
/// the output, so the result is valid UTF-8; and valid UTF-8 text whose
/// characters are all printed as they are (no control but the newline) comes
/// out unchanged.
#[verifier::external_body]
fn strip_ansi(data: &[u8]) -> (r: Vec<u8>)
    ensures
        r@ == ansi_stripped(data@),
        valid_utf8(r@),
        valid_utf8(data@) && is_plain_text(decode_utf8(data@)) ==> r@ == data@,
{
    strip_ansi_escapes::strip(data)
}

/// `String::from_utf8`: the text of `bytes` when they are valid UTF-8.
#[verifier::external_body]
fn string_from_utf8(bytes: Vec<u8>) -> (r: Option<String>)
    ensures
        r is Some <==> valid_utf8(bytes@),
        r matches Some(s) ==> s@ == decode_utf8(bytes@),
{
    String::from_utf8(bytes).ok()
}

/// A line of the game's output as the log shows it: without its ANSI
/// escape sequences.
pub fn clean_log_line(line: &str) -> (r: String)
    ensures
        r@ == decode_utf8(ansi_stripped(line.spec_bytes())),
        is_plain_text(line@) ==> r@ == line@,
{
    proof {
        encode_utf8_valid_utf8(line@);
        encode_utf8_decode_utf8(line@);
    }
    let stripped = strip_ansi(line.as_bytes());
    match string_from_utf8(stripped) {
        Some(s) => s,
        None => {
            assert(false);
            String::new()
        },
    }
}

} // verus!
