use kartklickare::bridge::BridgeOutcome;
use kartklickare::bridge::build_script;
use kartklickare::bridge::callback_outcome;
use kartklickare::bridge::is_js_safe_text;
use kartklickare::bridge::live_extras;
use kartklickare::bridge::offline_extras;
use kartklickare::bridge::prepare_request;
use kartklickare::jsonval::map_name_of;
use kartklickare::jsonval::payload_from_value;
use kartklickare::jsonval::player_from_identity;
use kartklickare::pool::CorrelationPool;
use kartklickare::render::render;
use serde_json::Value;

fn parse(text: &str) -> Value {
    serde_json::from_str(text).unwrap()
}

#[test]
fn script_carries_url_tags_and_id() {
    let extras = live_extras("Team Duels".to_string());
    let script = build_script("https://example.test/api/duels/XYZ", &extras, "c0RRelation1d");
    let expected = "(async () => { let response; try { const request = await fetch('https://example.test/api/duels/XYZ', { method: 'GET', credentials: 'include' }); response = await request.json(); response.game_type = \"live\";response.game_mode = \"Team Duels\"; } catch (error) { response = { err: error.toString() }; } window.__TAURI__.core.invoke('cb', { json: response, id: 'c0RRelation1d' }); })();";
    assert_eq!(script, expected);
}

#[test]
fn offline_extras_tag_the_discriminator() {
    let extras = offline_extras();
    assert_eq!(extras.len(), 1);
    assert_eq!(extras[0].0, "game_type");
    assert_eq!(extras[0].1, "offline");
}

#[test]
fn prepare_request_files_a_fresh_alphanumeric_id() {
    let mut pool: CorrelationPool<u32> = CorrelationPool::new();
    let extras = offline_extras();
    let (id, script) = prepare_request(&mut pool, "https://example.test/api", &extras, 7);
    assert_eq!(id.len(), 32);
    assert!(id.chars().all(|c| c.is_ascii_alphanumeric()));
    assert!(script.contains(&id));
    assert_eq!(pool.len(), 1);
    assert!(pool.contains(&id));
}

#[test]
fn resolution_is_exactly_once() {
    let mut pool: CorrelationPool<u32> = CorrelationPool::new();
    pool.register("abc".to_string(), 1);
    pool.register("def".to_string(), 2);
    assert_eq!(pool.resolve("abc"), Some(1));
    assert_eq!(pool.resolve("abc"), None);
    assert_eq!(pool.len(), 1);
    assert_eq!(pool.resolve("nothing-pending"), None);
    assert_eq!(pool.resolve("def"), Some(2));
    assert_eq!(pool.len(), 0);
}

#[test]
fn callback_outcome_discriminates_on_the_error_field() {
    let failure = parse(r#"{"err": "TypeError: failed to fetch"}"#);
    match callback_outcome(failure) {
        BridgeOutcome::Failure(message) => {
            assert_eq!(message, "\"TypeError: failed to fetch\"");
        },
        BridgeOutcome::Success(_) => panic!("a payload with err is a failure"),
    }
    let success = parse(r#"{"round": 3}"#);
    match callback_outcome(success) {
        BridgeOutcome::Success(v) => assert_eq!(v["round"].as_u64(), Some(3)),
        BridgeOutcome::Failure(_) => panic!("a payload without err is a success"),
    }
}

#[test]
fn fetched_offline_payload_renders_end_to_end() {
    let v = parse(
        r#"{
            "game_type": "offline",
            "round": 3,
            "roundCount": 5,
            "mode": "standard",
            "mapName": "World",
            "player": { "totalScore": { "amount": "4200" } }
        }"#,
    );
    let p = payload_from_value(&v);
    let (line1, line2) = render(&p).unwrap();
    assert_eq!(line1, "World");
    assert_eq!(line2, "Round: 3 / 5 - 4200 points");
}

#[test]
fn fetched_live_payload_renders_end_to_end() {
    let v = parse(
        r#"{
            "game_type": "live",
            "game_mode": "Duels",
            "currentRoundNumber": 2,
            "options": { "map": { "name": "A Community World" } }
        }"#,
    );
    let p = payload_from_value(&v);
    let (line1, line2) = render(&p).unwrap();
    assert_eq!(line1, "Duels - A Community World");
    assert_eq!(line2, "Round: 2");
}

#[test]
fn fetched_payload_without_discriminator_renders_nothing() {
    let v = parse(r#"{"round": 3, "mapName": "World"}"#);
    let p = payload_from_value(&v);
    assert!(render(&p).is_none());
}

#[test]
fn identity_payload_yields_the_player() {
    let v = parse(r#"{"user": {"nick": "somebody", "id": "abc123"}}"#);
    let player = player_from_identity(&v).unwrap();
    assert_eq!(player.player_name, "somebody");
    assert_eq!(player.player_id, "abc123");
    let incomplete = parse(r#"{"user": {"nick": "somebody"}}"#);
    assert!(player_from_identity(&incomplete).is_none());
}

#[test]
fn map_metadata_yields_the_name() {
    let v = parse(r#"{"name": "Famous Places"}"#);
    assert_eq!(map_name_of(&v), Some("Famous Places".to_string()));
    let unnamed = parse(r#"{"id": 42}"#);
    assert_eq!(map_name_of(&unnamed), None);
}

#[test]
fn splice_safety_check_rejects_quotes() {
    assert!(is_js_safe_text("/duels/AbC123"));
    assert!(!is_js_safe_text("/duels/'); alert(1); ('"));
    assert!(!is_js_safe_text("back\\slash"));
    assert!(!is_js_safe_text("line\nbreak"));
}
