use kartklickare::render::GamePayload;
use kartklickare::render::render;

fn empty_payload() -> GamePayload {
    GamePayload {
        game_type: None,
        round: None,
        round_count: None,
        mode: None,
        map_name: None,
        total_score: None,
        current_round_number: None,
        game_mode: None,
        has_answer_stats: false,
        has_options: false,
        options_map_name: None,
    }
}

fn offline_payload(round: u64, round_count: u64, mode: &str, map_name: &str, score: u64) -> GamePayload {
    GamePayload {
        game_type: Some("offline".to_string()),
        round: Some(round),
        round_count: Some(round_count),
        mode: Some(mode.to_string()),
        map_name: Some(map_name.to_string()),
        total_score: Some(score),
        ..empty_payload()
    }
}

fn live_payload(round: u64, game_mode: &str) -> GamePayload {
    GamePayload {
        game_type: Some("live".to_string()),
        current_round_number: Some(round),
        game_mode: Some(game_mode.to_string()),
        ..empty_payload()
    }
}

#[test]
fn offline_round_trip() {
    let p = offline_payload(3, 5, "standard", "World", 4200);
    let (line1, line2) = render(&p).unwrap();
    assert_eq!(line1, "World");
    assert_eq!(line2, "Round: 3 / 5 - 4200 points");
}

#[test]
fn offline_streak_override() {
    let p = offline_payload(4, 0, "streak", "Europe", 0);
    let (line1, line2) = render(&p).unwrap();
    assert_eq!(line1, "Country Streak - Europe");
    assert_eq!(line2, "Streak: 3");
}

#[test]
fn offline_zero_round_count_hides_maximum() {
    let p = offline_payload(2, 0, "standard", "World", 150);
    let (_, line2) = render(&p).unwrap();
    assert_eq!(line2, "Round: 2 - 150 points");
}

#[test]
fn offline_zero_score_hides_points() {
    let p = offline_payload(1, 5, "standard", "World", 0);
    let (_, line2) = render(&p).unwrap();
    assert_eq!(line2, "Round: 1 / 5");
}

#[test]
fn offline_missing_field_is_malformed() {
    let mut p = offline_payload(3, 5, "standard", "World", 4200);
    p.map_name = None;
    assert!(render(&p).is_none());
}

#[test]
fn live_quiz_detection() {
    let mut p = live_payload(2, "Bullseye");
    p.has_answer_stats = true;
    p.has_options = true;
    p.options_map_name = Some("World".to_string());
    let (line1, line2) = render(&p).unwrap();
    assert_eq!(line1, "Quiz");
    assert_eq!(line2, "Round: 2");
}

#[test]
fn live_quiz_beats_streak_override() {
    // The answer-stats marker decides the first line whatever the mode
    // fields say; the streak mode still overrides the second line.
    let mut p = live_payload(4, "streak");
    p.has_answer_stats = true;
    let (line1, line2) = render(&p).unwrap();
    assert_eq!(line1, "Quiz");
    assert_eq!(line2, "Streak: 3");
}

#[test]
fn live_streak_overrides_the_count_line_only() {
    let p = live_payload(4, "streak");
    let (line1, line2) = render(&p).unwrap();
    assert_eq!(line1, "streak - Battle Royale");
    assert_eq!(line2, "Streak: 3");
}

#[test]
fn live_streak_before_first_round_renders_nothing() {
    let p = live_payload(0, "streak");
    assert!(render(&p).is_none());
}

#[test]
fn live_battle_royale_fallback() {
    let p = live_payload(7, "Battle Royale Distance");
    let (line1, line2) = render(&p).unwrap();
    assert_eq!(line1, "Battle Royale Distance - Battle Royale");
    assert_eq!(line2, "Round: 7");
}

#[test]
fn live_with_map_options() {
    let mut p = live_payload(1, "Duels");
    p.has_options = true;
    p.options_map_name = Some("A Community World".to_string());
    let (line1, line2) = render(&p).unwrap();
    assert_eq!(line1, "Duels - A Community World");
    assert_eq!(line2, "Round: 1");
}

#[test]
fn live_options_without_name_is_malformed() {
    let mut p = live_payload(1, "Duels");
    p.has_options = true;
    p.options_map_name = None;
    assert!(render(&p).is_none());
}

#[test]
fn missing_game_type_renders_nothing() {
    let p = empty_payload();
    assert!(render(&p).is_none());
}

#[test]
fn unknown_game_type_renders_nothing() {
    let mut p = offline_payload(3, 5, "standard", "World", 4200);
    p.game_type = Some("tournament".to_string());
    assert!(render(&p).is_none());
}

#[test]
fn streak_before_first_round_renders_nothing() {
    let p = offline_payload(0, 0, "streak", "Europe", 0);
    assert!(render(&p).is_none());
}
