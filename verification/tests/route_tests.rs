use kartklickare::numfmt::parse_u64;
use kartklickare::numfmt::u64_to_string;
use kartklickare::routes::RouteClass;
use kartklickare::routes::classify;
use kartklickare::text::starts_with;
use kartklickare::text::str_eq;
use kartklickare::text::strip_prefix_or_self;
use kartklickare::text::first_segment;
use kartklickare::text::title_case;

#[test]
fn maps_beats_the_root_catch_all() {
    match classify("/maps/42") {
        RouteClass::MapBrowsing => {},
        _ => panic!("a maps path must classify as map browsing"),
    }
}

#[test]
fn live_routes_classify_as_live() {
    for path in ["/live-challenge/abc", "/duels/xyz", "/battle-royale/1", "/bullseye/2", "/team-duels/3"] {
        match classify(path) {
            RouteClass::LiveMultiplayer => {},
            _ => panic!("{path} must classify as a live game"),
        }
    }
}

#[test]
fn game_routes_classify_as_offline() {
    match classify("/game/AbCd1234") {
        RouteClass::OfflineGame => {},
        _ => panic!("a game path must classify as an offline game"),
    }
}

#[test]
fn menu_routes_use_most_specific_label() {
    match classify("/multiplayer/ranked") {
        RouteClass::MenuLike { label, show_path } => {
            assert_eq!(label, "Looking for game...");
            assert!(show_path);
        },
        _ => panic!("a multiplayer lobby path is menu-like"),
    }
    match classify("/competitive-streak/play") {
        RouteClass::MenuLike { label, show_path } => {
            assert_eq!(label, "City streak");
            assert!(!show_path);
        },
        _ => panic!("the streak lobby path is menu-like"),
    }
}

#[test]
fn root_falls_back_to_in_menu() {
    match classify("/") {
        RouteClass::MenuLike { label, show_path } => {
            assert_eq!(label, "In Menu");
            assert!(show_path);
        },
        _ => panic!("the root is menu-like"),
    }
}

#[test]
fn title_case_turns_kebab_into_words() {
    assert_eq!(title_case("live-challenge"), "Live Challenge");
    assert_eq!(title_case("duels"), "Duels");
    assert_eq!(title_case("team-duels"), "Team Duels");
    assert_eq!(title_case(""), "");
}

#[test]
fn first_segment_reads_the_leading_route_piece() {
    assert_eq!(first_segment("/duels/abc"), "duels");
    assert_eq!(first_segment("/bullseye"), "bullseye");
    assert_eq!(first_segment("/"), "");
}

#[test]
fn prefix_helpers_behave() {
    assert!(starts_with("/maps/42", "/maps"));
    assert!(!starts_with("/map", "/maps"));
    assert!(str_eq("/game/1", "/game/1"));
    assert!(!str_eq("/game/1", "/game/2"));
    assert_eq!(strip_prefix_or_self("/game/XYZ", "/game/"), "XYZ");
    assert_eq!(strip_prefix_or_self("/game", "/game/"), "/game");
}

#[test]
fn decimal_rendering_is_exact() {
    assert_eq!(u64_to_string(0), "0");
    assert_eq!(u64_to_string(7), "7");
    assert_eq!(u64_to_string(4200), "4200");
    assert_eq!(u64_to_string(u64::MAX), "18446744073709551615");
}

#[test]
fn decimal_parsing_is_exact() {
    assert_eq!(parse_u64("4200"), Some(4200));
    assert_eq!(parse_u64("+17"), Some(17));
    assert_eq!(parse_u64("0"), Some(0));
    assert_eq!(parse_u64(""), None);
    assert_eq!(parse_u64("+"), None);
    assert_eq!(parse_u64("12a"), None);
    assert_eq!(parse_u64("18446744073709551615"), Some(u64::MAX));
    assert_eq!(parse_u64("18446744073709551616"), None);
}
