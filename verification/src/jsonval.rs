//! The boundary to `serde_json`: the JSON value type is opaque here, so this
//! module declares it, names what its read-only accessors return, wraps the
//! accessors the logic needs, and turns a fetched value into the crate's own
//! plain-field payload — each field proved equal to its named read.

use vstd::prelude::*;
use serde_json::Value;
use crate::numfmt::dec_body;
use crate::numfmt::dec_val;
use crate::numfmt::is_dec_u64;
use crate::numfmt::parse_u64;
use crate::render::GamePayload;

verus! {

#[verifier::external_type_specification]
#[verifier::external_body]
pub struct ExValue(Value);

/// What `serde_json::Value::get` returns for a string index: a function of
/// the value and the key alone.
pub uninterp spec fn json_field_of(v: Value, key: Seq<char>) -> Option<Value>;

/// What `serde_json::Value::as_u64` returns: a function of the value alone.
pub uninterp spec fn json_u64_of(v: Value) -> Option<u64>;

/// What `serde_json::Value::as_str` returns: a function of the value alone.
pub uninterp spec fn json_str_of(v: Value) -> Option<Seq<char>>;

/// What `serde_json::Value`'s `Display` form reads: a function of the value
/// alone.
pub uninterp spec fn json_text_of(v: Value) -> Seq<char>;

/// Relies on `serde_json::Value::get` with a string index: the value of the
/// field `key` of a JSON object, or `None` when the value is no object or
/// has no such field.
#[verifier::external_body]
fn json_get<'a>(v: &'a Value, key: &str) -> (r: Option<&'a Value>)
    ensures
        r matches Some(f) ==> json_field_of(*v, key@) == Some(*f),
        r is None ==> json_field_of(*v, key@) is None,
{
    v.get(key)
}

/// Relies on `serde_json::Value::as_u64`: the value as a `u64` when it is an
/// integer representable as one, `None` otherwise.
#[verifier::external_body]
fn json_as_u64(v: &Value) -> (r: Option<u64>)
    ensures
        r == json_u64_of(*v),
{
    v.as_u64()
}

/// Relies on `serde_json::Value::as_str`: the value's text when it is a JSON
/// string, `None` otherwise; handed out as an owned copy.
#[verifier::external_body]
fn json_as_string(v: &Value) -> (r: Option<String>)
    ensures
        r matches Some(s) ==> json_str_of(*v) == Some(s@),
        r is None ==> json_str_of(*v) is None,
{
    match v.as_str() {
        Some(s) => Some(s.to_owned()),
        None => None,
    }
}

/// Relies on `serde_json::Value`'s `Display` implementation, which writes
/// the value as compact JSON text: used for error reports only.
#[verifier::external_body]
pub fn json_text(v: &Value) -> (r: String)
    ensures
        r@ == json_text_of(*v),
{
    v.to_string()
}

/// The field `key` read as a number: the named reads composed.
pub open spec fn field_u64_of(v: Value, key: Seq<char>) -> Option<u64> {
    match json_field_of(v, key) {
        Some(f) => json_u64_of(f),
        None => None,
    }
}

/// The field `key` read as a string: the named reads composed.
pub open spec fn field_str_of(v: Value, key: Seq<char>) -> Option<Seq<char>> {
    match json_field_of(v, key) {
        Some(f) => json_str_of(f),
        None => None,
    }
}

/// Whether an owned optional string carries exactly the characters of a
/// spec-level one.
pub open spec fn opt_str_matches(a: Option<String>, b: Option<Seq<char>>) -> bool {
    match a {
        Some(s) => b == Some(s@),
        None => b is None,
    }
}

fn get_string_field(v: &Value, key: &str) -> (r: Option<String>)
    ensures
        opt_str_matches(r, field_str_of(*v, key@)),
{
    match json_get(v, key) {
        Some(f) => json_as_string(f),
        None => None,
    }
}

fn get_u64_field(v: &Value, key: &str) -> (r: Option<u64>)
    ensures
        r == field_u64_of(*v, key@),
{
    match json_get(v, key) {
        Some(f) => json_as_u64(f),
        None => None,
    }
}

/// The offline payload's total score as the fetched value carries it: the
/// field `player.totalScore.amount`, a decimal number in a JSON string.
pub open spec fn total_score_of(v: Value) -> Option<u64> {
    match json_field_of(v, "player"@) {
        Some(player) => match json_field_of(player, "totalScore"@) {
            Some(total) => match field_str_of(total, "amount"@) {
                Some(text) => if is_dec_u64(dec_body(text)) {
                    Some(dec_val(dec_body(text)) as u64)
                } else {
                    None
                },
                None => None,
            },
            None => None,
        },
        None => None,
    }
}

fn get_total_score(v: &Value) -> (r: Option<u64>)
    ensures
        r == total_score_of(*v),
{
    let player = match json_get(v, "player") {
        Some(p) => p,
        None => {
            return None;
        },
    };
    let total = match json_get(player, "totalScore") {
        Some(t) => t,
        None => {
            return None;
        },
    };
    let amount = match get_string_field(total, "amount") {
        Some(a) => a,
        None => {
            return None;
        },
    };
    parse_u64(amount.as_str())
}

/// The map name a live payload's `options` object carries, when the object,
/// its map and the map's name are all there.
pub open spec fn options_map_name_of(v: Value) -> Option<Seq<char>> {
    match json_field_of(v, "options"@) {
        Some(o) => match json_field_of(o, "map"@) {
            Some(m) => field_str_of(m, "name"@),
            None => None,
        },
        None => None,
    }
}

/// Reads a fetched game-state value into the crate's payload model: each
/// field the renderer looks at, as a plain value, absent where the JSON does
/// not carry it in the expected shape. Every field is pinned to its named
/// read of the value, so [`crate::render::render`]'s contract reaches all
/// the way back to the fetched JSON.
pub fn payload_from_value(v: &Value) -> (p: GamePayload)
    ensures
        opt_str_matches(p.game_type, field_str_of(*v, "game_type"@)),
        p.round == field_u64_of(*v, "round"@),
        p.round_count == field_u64_of(*v, "roundCount"@),
        opt_str_matches(p.mode, field_str_of(*v, "mode"@)),
        opt_str_matches(p.map_name, field_str_of(*v, "mapName"@)),
        p.total_score == total_score_of(*v),
        p.current_round_number == field_u64_of(*v, "currentRoundNumber"@),
        opt_str_matches(p.game_mode, field_str_of(*v, "game_mode"@)),
        p.has_answer_stats == (json_field_of(*v, "aggregatedAnswerStats"@) is Some),
        p.has_options == (json_field_of(*v, "options"@) is Some),
        opt_str_matches(p.options_map_name, options_map_name_of(*v)),
{
    let (has_options, options_map_name) = match json_get(v, "options") {
        Some(o) => (
            true,
            match json_get(o, "map") {
                Some(m) => get_string_field(m, "name"),
                None => None,
            },
        ),
        None => (false, None),
    };
    GamePayload {
        game_type: get_string_field(v, "game_type"),
        round: get_u64_field(v, "round"),
        round_count: get_u64_field(v, "roundCount"),
        mode: get_string_field(v, "mode"),
        map_name: get_string_field(v, "mapName"),
        total_score: get_total_score(v),
        current_round_number: get_u64_field(v, "currentRoundNumber"),
        game_mode: get_string_field(v, "game_mode"),
        has_answer_stats: match json_get(v, "aggregatedAnswerStats") {
            Some(_) => true,
            None => false,
        },
        has_options,
        options_map_name,
    }
}

/// The compact JSON text of the field `key` of `v`, when the field is
/// there: how a reported error is turned into its message.
pub fn value_field_text(v: &Value, key: &str) -> (r: Option<String>)
    ensures
        r matches Some(t) ==> (json_field_of(*v, key@) matches Some(f) && t@ == json_text_of(f)),
        r is None ==> json_field_of(*v, key@) is None,
{
    match json_get(v, key) {
        Some(e) => Some(json_text(e)),
        None => None,
    }
}

/// The map name of a fetched map-metadata value, for the map-browsing
/// presence line.
pub fn map_name_of(v: &Value) -> (r: Option<String>)
    ensures
        opt_str_matches(r, field_str_of(*v, "name"@)),
{
    get_string_field(v, "name")
}

/// The signed-in player, read from the identity endpoint's response.
pub struct PlayerInfo {
    pub player_name: String,
    pub player_id: String,
}

impl Default for PlayerInfo {
    /// A player record with empty name and id, as before the identity fetch.
    fn default() -> (p: PlayerInfo)
        ensures
            p.player_name@ == Seq::<char>::empty(),
            p.player_id@ == Seq::<char>::empty(),
    {
        PlayerInfo { player_name: String::new(), player_id: String::new() }
    }
}

/// The identity payload's `user.nick` field.
pub open spec fn identity_nick_of(v: Value) -> Option<Seq<char>> {
    match json_field_of(v, "user"@) {
        Some(user) => field_str_of(user, "nick"@),
        None => None,
    }
}

/// The identity payload's `user.id` field.
pub open spec fn identity_id_of(v: Value) -> Option<Seq<char>> {
    match json_field_of(v, "user"@) {
        Some(user) => field_str_of(user, "id"@),
        None => None,
    }
}

/// Reads the identity payload's `user.nick` and `user.id` fields into the
/// player record; `None` exactly when either is missing or no string, which
/// the caller treats as a fatal startup error.
pub fn player_from_identity(v: &Value) -> (r: Option<PlayerInfo>)
    ensures
        r is Some <==> identity_nick_of(*v) is Some && identity_id_of(*v) is Some,
        r matches Some(player) ==> identity_nick_of(*v) == Some(player.player_name@)
            && identity_id_of(*v) == Some(player.player_id@),
{
    let user = match json_get(v, "user") {
        Some(u) => u,
        None => {
            return None;
        },
    };
    let nick = match get_string_field(user, "nick") {
        Some(n) => n,
        None => {
            return None;
        },
    };
    let id = match get_string_field(user, "id") {
        Some(i) => i,
        None => {
            return None;
        },
    };
    Some(PlayerInfo { player_name: nick, player_id: id })
}

} // verus!
