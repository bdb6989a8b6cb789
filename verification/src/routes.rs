//! Classification of a sampled location path against the known route
//! prefixes. The menu table is scanned from its most specific entry down to
//! the root catch-all, so an overlapping longer prefix always wins.

use vstd::prelude::*;
use vstd::string::StringExecFns;
use crate::starts_with_spec;
use crate::text::starts_with;

verus! {

broadcast use vstd::string::group_string_axioms;

/// What one poll tick decided about the displayed route.
pub enum RouteClass {
    /// One of the multiplayer game routes: a live-game fetch follows.
    LiveMultiplayer,
    /// A single-player game route: an offline-game fetch follows.
    OfflineGame,
    /// A map page: a map-metadata fetch follows.
    MapBrowsing,
    /// Anything else: presence is set from the static label, with the raw
    /// path shown when `show_path` holds.
    MenuLike { label: String, show_path: bool },
}

/// The multiplayer route prefixes.
pub open spec fn is_live_path(s: Seq<char>) -> bool {
    ||| starts_with_spec(s, "/live-challenge"@)
    ||| starts_with_spec(s, "/duels"@)
    ||| starts_with_spec(s, "/battle-royale"@)
    ||| starts_with_spec(s, "/bullseye"@)
    ||| starts_with_spec(s, "/team-duels"@)
}

/// The single-player game route prefix.
pub open spec fn is_offline_path(s: Seq<char>) -> bool {
    starts_with_spec(s, "/game"@)
}

/// The menu label and path-display flag for a path that is neither a game
/// route nor a map page; later table entries are more specific and win.
pub open spec fn menu_label_spec(s: Seq<char>) -> (Seq<char>, bool) {
    if starts_with_spec(s, "/competitive-streak"@) {
        ("City streak"@, false)
    } else if starts_with_spec(s, "/quiz"@) {
        ("Quiz time!"@, false)
    } else if starts_with_spec(s, "/party"@) {
        ("In Lobby"@, false)
    } else if starts_with_spec(s, "/multiplayer"@) {
        ("Looking for game..."@, true)
    } else if starts_with_spec(s, "/singleplayer"@) {
        ("Campaign"@, false)
    } else if starts_with_spec(s, "/shop"@) {
        ("Shopping!"@, false)
    } else if starts_with_spec(s, "/me"@) {
        ("Profile"@, true)
    } else {
        ("In Menu"@, true)
    }
}

/// Whether the path is one of the game routes (the routes the debounce rule
/// applies to).
pub open spec fn is_game_path(s: Seq<char>) -> bool {
    is_live_path(s) || is_offline_path(s)
}

/// A spec-level summary of the class alone, label aside, so that the exec
/// label (a fresh `String`) can be stated separately.
pub open spec fn class_matches(c: RouteClass, s: Seq<char>) -> bool {
    match c {
        RouteClass::LiveMultiplayer => is_live_path(s),
        RouteClass::OfflineGame => !is_live_path(s) && is_offline_path(s),
        RouteClass::MapBrowsing => !is_live_path(s) && !is_offline_path(s) && starts_with_spec(
            s,
            "/maps"@,
        ),
        RouteClass::MenuLike { label, show_path } => !is_live_path(s) && !is_offline_path(s)
            && !starts_with_spec(s, "/maps"@) && label@ == menu_label_spec(s).0 && show_path
            == menu_label_spec(s).1,
    }
}

/// Classifies one sampled path. Game routes are checked first, then the menu
/// table from its most specific prefix down to the root default, so an
/// overlapping more specific prefix always beats the catch-all.
pub fn classify(path: &str) -> (c: RouteClass)
    ensures
        class_matches(c, path@),
{
    if starts_with(path, "/live-challenge") || starts_with(path, "/duels") || starts_with(
        path,
        "/battle-royale",
    ) || starts_with(path, "/bullseye") || starts_with(path, "/team-duels") {
        RouteClass::LiveMultiplayer
    } else if starts_with(path, "/game") {
        RouteClass::OfflineGame
    } else if starts_with(path, "/maps") {
        RouteClass::MapBrowsing
    } else if starts_with(path, "/competitive-streak") {
        RouteClass::MenuLike { label: String::from_str("City streak"), show_path: false }
    } else if starts_with(path, "/quiz") {
        RouteClass::MenuLike { label: String::from_str("Quiz time!"), show_path: false }
    } else if starts_with(path, "/party") {
        RouteClass::MenuLike { label: String::from_str("In Lobby"), show_path: false }
    } else if starts_with(path, "/multiplayer") {
        RouteClass::MenuLike { label: String::from_str("Looking for game..."), show_path: true }
    } else if starts_with(path, "/singleplayer") {
        RouteClass::MenuLike { label: String::from_str("Campaign"), show_path: false }
    } else if starts_with(path, "/shop") {
        RouteClass::MenuLike { label: String::from_str("Shopping!"), show_path: false }
    } else if starts_with(path, "/me") {
        RouteClass::MenuLike { label: String::from_str("Profile"), show_path: true }
    } else {
        RouteClass::MenuLike { label: String::from_str("In Menu"), show_path: true }
    }
}

/// Classification precedence: a path under the map prefix is map browsing,
/// never the root menu entry, although the catch-all also matches it.
pub proof fn lemma_maps_beats_root(s: Seq<char>, c: RouteClass)
    requires
        starts_with_spec(s, "/maps"@),
        class_matches(c, s),
    ensures
        c is MapBrowsing,
{
    reveal_strlit("/maps");
    reveal_strlit("/live-challenge");
    reveal_strlit("/duels");
    reveal_strlit("/battle-royale");
    reveal_strlit("/bullseye");
    reveal_strlit("/team-duels");
    reveal_strlit("/game");
    assert("/maps"@.len() == 5);
    assert(s.subrange(0, 5)[1] == s[1]);
    assert(s[1] == 'm');
    if is_live_path(s) || is_offline_path(s) {
        if starts_with_spec(s, "/live-challenge"@) {
            assert("/live-challenge"@.len() == 15);
            assert(s.subrange(0, 15)[1] == s[1]);
            assert(s[1] == 'l');
        } else if starts_with_spec(s, "/duels"@) {
            assert("/duels"@.len() == 6);
            assert(s.subrange(0, 6)[1] == s[1]);
            assert(s[1] == 'd');
        } else if starts_with_spec(s, "/battle-royale"@) {
            assert("/battle-royale"@.len() == 14);
            assert(s.subrange(0, 14)[1] == s[1]);
            assert(s[1] == 'b');
        } else if starts_with_spec(s, "/bullseye"@) {
            assert("/bullseye"@.len() == 9);
            assert(s.subrange(0, 9)[1] == s[1]);
            assert(s[1] == 'b');
        } else if starts_with_spec(s, "/team-duels"@) {
            assert("/team-duels"@.len() == 11);
            assert(s.subrange(0, 11)[1] == s[1]);
            assert(s[1] == 't');
        } else {
            assert("/game"@.len() == 5);
            assert(s[1] == 'g');
        }
    }
}

} // verus!
