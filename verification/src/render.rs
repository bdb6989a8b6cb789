//! The presence renderer: a pure mapping from one classified game-state
//! payload to the two display lines of the presence session.
//!
//! A payload that is missing its discriminator, carries an unrecognized
//! discriminator, or is missing a field its discriminator requires, is
//! malformed: it renders to nothing rather than to a partial line.

use vstd::prelude::*;
use vstd::string::StringExecFns;
use crate::numfmt::dec_str;
use crate::numfmt::u64_to_string;
use crate::text::str_eq;

verus! {

broadcast use vstd::string::group_string_axioms;

/// The fields a game-state payload can carry, as plain values. An absent
/// JSON field is `None`; `has_answer_stats` records whether the aggregated
/// answer statistics marker was present, and `has_options` whether the
/// `options` object was.
pub struct GamePayload {
    /// The discriminator: `"offline"`, `"live"`, or something malformed.
    pub game_type: Option<String>,
    /// Offline: the current round number.
    pub round: Option<u64>,
    /// Offline: the total number of rounds.
    pub round_count: Option<u64>,
    /// Offline: the game mode; `"streak"` selects the streak lines.
    pub mode: Option<String>,
    /// Offline: the displayed map name.
    pub map_name: Option<String>,
    /// Offline: the player's total score.
    pub total_score: Option<u64>,
    /// Live: the current round number.
    pub current_round_number: Option<u64>,
    /// Live: the mode name the poller attached to the fetch.
    pub game_mode: Option<String>,
    /// Live: whether the aggregated-answer-stats marker was present.
    pub has_answer_stats: bool,
    /// Live: whether the `options` object was present.
    pub has_options: bool,
    /// Live: the map name inside `options`, when that object was present
    /// and readable.
    pub options_map_name: Option<String>,
}

impl Default for GamePayload {
    /// A payload with every field absent.
    fn default() -> (p: GamePayload)
        ensures
            p.game_type is None,
            p.round is None,
            p.round_count is None,
            p.mode is None,
            p.map_name is None,
            p.total_score is None,
            p.current_round_number is None,
            p.game_mode is None,
            !p.has_answer_stats,
            !p.has_options,
            p.options_map_name is None,
    {
        GamePayload {
            game_type: None,
            round: None,
            round_count: None,
            mode: None,
            map_name: None,
            total_score: None,
            current_round_number: None,
            game_mode: None,
            has_answer_stats: false,
            has_options: false,
            options_map_name: None,
        }
    }
}

/// Whether an offline payload carries every field it needs.
pub open spec fn offline_wf(p: GamePayload) -> bool {
    &&& p.round is Some
    &&& p.round_count is Some
    &&& p.mode is Some
    &&& p.map_name is Some
    &&& p.total_score is Some
}

/// Whether a live payload carries every field it needs: a round number, the
/// attached mode name, and a readable map name whenever `options` is there.
pub open spec fn live_wf(p: GamePayload) -> bool {
    &&& p.current_round_number is Some
    &&& p.game_mode is Some
    &&& p.has_options ==> p.options_map_name is Some
}

/// The map name a live payload displays: the one inside `options`, or the
/// battle-royale fallback when no `options` object came at all.
pub open spec fn live_map_spec(p: GamePayload) -> Seq<char> {
    if p.has_options {
        p.options_map_name->Some_0@
    } else {
        "Battle Royale"@
    }
}

/// The second display line of a running game: the round number, then the
/// round count when it is nonzero, then the score when it is nonzero.
pub open spec fn round_line_spec(round: nat, round_count: nat, score: nat) -> Seq<char> {
    "Round: "@ + dec_str(round) + (if round_count > 0 {
        " / "@ + dec_str(round_count)
    } else {
        Seq::<char>::empty()
    }) + (if score > 0 {
        " - "@ + dec_str(score) + " points"@
    } else {
        Seq::<char>::empty()
    })
}

/// The streak-count line of a streak game `round` rounds in: the count is
/// the number of rounds already completed.
pub open spec fn streak_count_line_spec(round: nat) -> Seq<char>
    recommends
        round >= 1,
{
    "Streak: "@ + dec_str((round - 1) as nat)
}

/// The two display lines of an offline streak game on its map `map`: the
/// streak heading and the streak count.
pub open spec fn streak_lines_spec(map: Seq<char>, round: nat) -> (Seq<char>, Seq<char>)
    recommends
        round >= 1,
{
    ("Country Streak - "@ + map, streak_count_line_spec(round))
}

/// What the renderer yields for a payload: `None` for anything malformed,
/// otherwise the two display lines.
///
/// Offline games show the map name and the round line, and an offline streak
/// mode overrides both lines. Live games show the mode and map — or just
/// `Quiz` whenever the answer-stats marker is present, whatever the mode
/// fields say — over the bare round number; a live streak mode overrides the
/// second line only, with the streak count. A streak payload in a round
/// before the first is malformed: it has no streak count to show.
pub open spec fn render_spec(p: GamePayload) -> Option<(Seq<char>, Seq<char>)> {
    if p.game_type is Some && p.game_type->Some_0@ == "offline"@ {
        if !offline_wf(p) {
            None
        } else if p.mode->Some_0@ == "streak"@ {
            if p.round->Some_0 == 0 {
                None
            } else {
                Some(streak_lines_spec(p.map_name->Some_0@, p.round->Some_0 as nat))
            }
        } else {
            Some(
                (
                    p.map_name->Some_0@,
                    round_line_spec(
                        p.round->Some_0 as nat,
                        p.round_count->Some_0 as nat,
                        p.total_score->Some_0 as nat,
                    ),
                ),
            )
        }
    } else if p.game_type is Some && p.game_type->Some_0@ == "live"@ {
        if !live_wf(p) {
            None
        } else if p.game_mode->Some_0@ == "streak"@ && p.current_round_number->Some_0 == 0 {
            None
        } else {
            let line1 = if p.has_answer_stats {
                "Quiz"@
            } else {
                p.game_mode->Some_0@ + " - "@ + live_map_spec(p)
            };
            let line2 = if p.game_mode->Some_0@ == "streak"@ {
                streak_count_line_spec(p.current_round_number->Some_0 as nat)
            } else {
                round_line_spec(p.current_round_number->Some_0 as nat, 0, 0)
            };
            Some((line1, line2))
        }
    } else {
        None
    }
}

fn round_line(round: u64, round_count: u64, score: u64) -> (s: String)
    ensures
        s@ == round_line_spec(round as nat, round_count as nat, score as nat),
{
    let mut s = String::from_str("Round: ");
    let r = u64_to_string(round);
    s.append(r.as_str());
    if round_count > 0 {
        s.append(" / ");
        let rc = u64_to_string(round_count);
        s.append(rc.as_str());
    }
    if score > 0 {
        s.append(" - ");
        let sc = u64_to_string(score);
        s.append(sc.as_str());
        s.append(" points");
    }
    proof {
        assert(s@ =~= round_line_spec(round as nat, round_count as nat, score as nat));
    }
    s
}

fn streak_count_line(round: u64) -> (s: String)
    requires
        round >= 1,
    ensures
        s@ == streak_count_line_spec(round as nat),
{
    let mut s = String::from_str("Streak: ");
    let n = u64_to_string(round - 1);
    s.append(n.as_str());
    proof {
        assert(s@ =~= streak_count_line_spec(round as nat));
    }
    s
}

fn streak_lines(map: &String, round: u64) -> (lines: (String, String))
    requires
        round >= 1,
    ensures
        lines.0@ == streak_lines_spec(map@, round as nat).0,
        lines.1@ == streak_lines_spec(map@, round as nat).1,
{
    let mut l1 = String::from_str("Country Streak - ");
    l1.append(map.as_str());
    proof {
        assert(l1@ =~= streak_lines_spec(map@, round as nat).0);
    }
    (l1, streak_count_line(round))
}

/// Maps a payload to its two presence lines, or to `None` for a malformed
/// payload, which never produces a partial update.
pub fn render(p: &GamePayload) -> (r: Option<(String, String)>)
    ensures
        r is Some <==> render_spec(*p) is Some,
        r is Some ==> r->Some_0.0@ == render_spec(*p)->Some_0.0 && r->Some_0.1@ == render_spec(
            *p,
        )->Some_0.1,
{
    let gt = match &p.game_type {
        Some(gt) => gt,
        None => {
            return None;
        },
    };
    if str_eq(gt.as_str(), "offline") {
        match (&p.round, &p.round_count, &p.mode, &p.map_name, &p.total_score) {
            (Some(round), Some(round_count), Some(mode), Some(map_name), Some(total_score)) => {
                if str_eq(mode.as_str(), "streak") {
                    if *round == 0 {
                        None
                    } else {
                        Some(streak_lines(map_name, *round))
                    }
                } else {
                    Some((map_name.clone(), round_line(*round, *round_count, *total_score)))
                }
            },
            _ => None,
        }
    } else if str_eq(gt.as_str(), "live") {
        let round = match &p.current_round_number {
            Some(round) => *round,
            None => {
                return None;
            },
        };
        let game_mode = match &p.game_mode {
            Some(game_mode) => game_mode,
            None => {
                return None;
            },
        };
        let map: String = if p.has_options {
            match &p.options_map_name {
                Some(name) => name.clone(),
                None => {
                    return None;
                },
            }
        } else {
            String::from_str("Battle Royale")
        };
        let is_streak = str_eq(game_mode.as_str(), "streak");
        if is_streak && round == 0 {
            return None;
        }
        let line1 = if p.has_answer_stats {
            String::from_str("Quiz")
        } else {
            let mut l1 = game_mode.clone();
            l1.append(" - ");
            l1.append(map.as_str());
            proof {
                assert(l1@ =~= game_mode@ + " - "@ + live_map_spec(*p));
            }
            l1
        };
        let line2 = if is_streak {
            streak_count_line(round)
        } else {
            round_line(round, 0, 0)
        };
        Some((line1, line2))
    } else {
        None
    }
}

/// Quiz detection: a live payload that carries the aggregated answer-stats
/// marker renders its first line as `Quiz` whenever it renders at all,
/// whatever its other mode fields say; and every well-formed such payload
/// with a streak count to show does render.
pub proof fn lemma_live_quiz_detection(p: GamePayload)
    requires
        p.game_type is Some && p.game_type->Some_0@ == "live"@,
        p.has_answer_stats,
    ensures
        render_spec(p) is Some ==> render_spec(p)->Some_0.0 == "Quiz"@,
        live_wf(p) && !(p.game_mode->Some_0@ == "streak"@ && p.current_round_number->Some_0 == 0)
            ==> render_spec(p) is Some,
{
    reveal_strlit("offline");
    reveal_strlit("live");
    assert("live"@.len() == 4);
    assert("offline"@.len() == 7);
}

/// Battle-royale fallback: a live payload with no `options` object displays
/// the map name `Battle Royale`; in particular, outside the quiz override,
/// the first line is the mode name followed by that fallback.
pub proof fn lemma_battle_royale_fallback(p: GamePayload)
    requires
        p.game_type is Some && p.game_type->Some_0@ == "live"@,
        live_wf(p),
        !p.has_options,
    ensures
        live_map_spec(p) == "Battle Royale"@,
        !p.has_answer_stats && render_spec(p) is Some ==> render_spec(p)->Some_0.0
            == p.game_mode->Some_0@ + " - "@ + "Battle Royale"@,
        !(p.game_mode->Some_0@ == "streak"@ && p.current_round_number->Some_0 == 0)
            ==> render_spec(p) is Some,
{
    reveal_strlit("offline");
    reveal_strlit("live");
    assert("live"@.len() == 4);
    assert("offline"@.len() == 7);
}

/// Malformed payloads render to nothing: without a `game_type` of
/// `"offline"` or `"live"`, there is no presence update at all.
pub proof fn lemma_malformed_payload(p: GamePayload)
    requires
        p.game_type is None || (p.game_type->Some_0@ != "offline"@ && p.game_type->Some_0@
            != "live"@),
    ensures
        render_spec(p) is None,
{
}

} // verus!
