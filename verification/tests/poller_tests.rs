use kartklickare::poller::PollerState;
use kartklickare::poller::RETRY_BUDGET;
use kartklickare::poller::TickStep;
use kartklickare::poller::poll_tick;

fn is_wait(step: &TickStep) -> bool {
    matches!(step, TickStep::Wait)
}

#[test]
fn debounce_holds_an_unchanged_game_path() {
    // The first sight of the game path dispatches one fetch; the unchanged
    // re-samples that follow must all wait, and a changed path dispatches
    // again at once.
    let mut state = PollerState::new("/".to_string());
    let steps = ["/game/1", "/game/1", "/game/1", "/results/1"];
    let mut offline_fetches = 0;
    let mut outcomes = Vec::new();
    for path in steps {
        let step = poll_tick(&mut state, path);
        if let TickStep::FetchOffline { url } = &step {
            assert_eq!(url, "https://www.geoguessr.com/api/v3/games/1");
            offline_fetches += 1;
        }
        outcomes.push(step);
    }
    assert_eq!(offline_fetches, 1);
    assert!(!is_wait(&outcomes[0]));
    assert!(is_wait(&outcomes[1]));
    assert!(is_wait(&outcomes[2]));
    match &outcomes[3] {
        TickStep::ShowMenu { label, show_path } => {
            assert_eq!(label, "In Menu");
            assert!(*show_path);
        },
        _ => panic!("the changed path must dispatch at once"),
    }
}

#[test]
fn debounce_budget_exhaustion_refetches() {
    let mut state = PollerState::new("/".to_string());
    let first = poll_tick(&mut state, "/game/9");
    assert!(matches!(first, TickStep::FetchOffline { .. }));
    let mut waits = 0;
    loop {
        let step = poll_tick(&mut state, "/game/9");
        if is_wait(&step) {
            waits += 1;
            assert!(waits <= RETRY_BUDGET, "the debounce must end with the budget");
        } else {
            assert!(matches!(step, TickStep::FetchOffline { .. }));
            break;
        }
    }
    assert_eq!(waits, RETRY_BUDGET);
}

#[test]
fn live_dispatch_derives_mode_and_normalizes_team_routes() {
    let mut state = PollerState::new("/".to_string());
    match poll_tick(&mut state, "/team-duels/XYZ") {
        TickStep::FetchLive { url, game_mode } => {
            assert_eq!(game_mode, "Team Duels");
            assert_eq!(url, "https://game-server.geoguessr.com/api//duels/XYZ");
        },
        _ => panic!("a team-duels path must fetch live data"),
    }
}

#[test]
fn map_dispatch_strips_the_prefix() {
    let mut state = PollerState::new("/".to_string());
    match poll_tick(&mut state, "/maps/42") {
        TickStep::FetchMap { url, label } => {
            assert_eq!(url, "https://www.geoguessr.com/api/maps/42");
            assert_eq!(label, "Looking at map");
        },
        _ => panic!("a maps path must fetch map metadata"),
    }
}

#[test]
fn menu_paths_dispatch_every_tick() {
    // Menu routes are not debounced: an unchanged menu path still sets
    // presence each tick.
    let mut state = PollerState::new("/shop".to_string());
    for _ in 0..3 {
        match poll_tick(&mut state, "/shop") {
            TickStep::ShowMenu { label, show_path } => {
                assert_eq!(label, "Shopping!");
                assert!(!show_path);
            },
            _ => panic!("a shop path is menu-like"),
        }
    }
}
