//! The page-state poller's decision core: one step per sampled location.
//!
//! Each tick the surrounding loop samples the displayed path and hands it to
//! [`poll_tick`], which classifies it, applies the debounce rule for game
//! routes, and answers with the action of the tick: wait and sample again,
//! fetch game or map data at a derived endpoint, or set the presence lines
//! straight from the menu table.

use vstd::prelude::*;
use vstd::string::StringExecFns;
use crate::routes::RouteClass;
use crate::routes::classify;
use crate::routes::is_game_path;
use crate::routes::is_live_path;
use crate::routes::is_offline_path;
use crate::routes::class_matches;
use crate::starts_with_spec;
use crate::text::first_segment_spec;
use crate::text::first_segment;
use crate::text::starts_with;
use crate::text::strip_prefix_spec;
use crate::text::strip_prefix_or_self;
use crate::text::title_case_spec;
use crate::text::title_case;

verus! {

broadcast use vstd::string::group_string_axioms;

/// How many extra samples the debounce rule takes before it accepts that an
/// unchanged game path really is the current one.
pub const RETRY_BUDGET: u64 = 20;

/// The poller's whole persistent state: the path of the previous tick and
/// the debounce samples still to spend.
pub struct PollerState {
    pub last_path: String,
    pub debounce_left: u64,
}

/// The spec-level image of the poller state.
pub struct PollerModel {
    pub last: Seq<char>,
    pub left: nat,
}

impl View for PollerState {
    type V = PollerModel;

    open spec fn view(&self) -> PollerModel {
        PollerModel { last: self.last_path@, left: self.debounce_left as nat }
    }
}

impl PollerState {
    /// The state at startup: the initial location, with no debounce pending.
    pub fn new(initial_path: String) -> (s: PollerState)
        ensures
            s@.last == initial_path@,
            s@.left == 0,
    {
        PollerState { last_path: initial_path, debounce_left: 0 }
    }
}

/// What one tick does with its sample.
pub enum TickStep {
    /// Mid-transition: sleep one interval and sample again.
    Wait,
    /// Fetch live-game data at `url`, tagging the payload with the derived
    /// mode name.
    FetchLive { url: String, game_mode: String },
    /// Fetch offline-game data at `url`.
    FetchOffline { url: String },
    /// Fetch map metadata at `url`; presence then shows `label` over the
    /// fetched map name.
    FetchMap { url: String, label: String },
    /// Set presence from the menu table: the static label, and the raw path
    /// as the second line when `show_path` holds.
    ShowMenu { label: String, show_path: bool },
}

/// Whether a tick on `sampled` dispatches (fetch or presence update) rather
/// than waits: during a debounce an unchanged sample dispatches only once
/// the budget is spent, while a changed one restarts the tick, and so
/// dispatches at once; outside a debounce everything dispatches except an
/// unchanged game path, which opens a debounce.
pub open spec fn tick_acts(m: PollerModel, sampled: Seq<char>) -> bool {
    if m.left > 0 {
        if sampled == m.last {
            m.left == 1
        } else {
            true
        }
    } else {
        !(is_game_path(sampled) && sampled == m.last)
    }
}

/// The poller state after a tick on `sampled`: an opened debounce carries
/// the retry budget, a pending one loses one sample, and a dispatching tick
/// records `sampled` as the last path.
pub open spec fn tick_next(m: PollerModel, sampled: Seq<char>) -> PollerModel {
    if m.left > 0 {
        if sampled == m.last {
            if m.left == 1 {
                PollerModel { last: sampled, left: 0 }
            } else {
                PollerModel { last: m.last, left: (m.left - 1) as nat }
            }
        } else {
            PollerModel { last: sampled, left: 0 }
        }
    } else {
        if is_game_path(sampled) && sampled == m.last {
            PollerModel { last: m.last, left: RETRY_BUDGET as nat }
        } else {
            PollerModel { last: sampled, left: 0 }
        }
    }
}

/// The team-prefixed live route mapped to its base route; any other path is
/// kept as it is.
pub open spec fn normalize_team_spec(s: Seq<char>) -> Seq<char> {
    if starts_with_spec(s, "/team-"@) {
        "/"@ + s.subrange("/team-"@.len() as int, s.len() as int)
    } else {
        s
    }
}

/// The display mode name a live route carries: its first segment read as a
/// kebab-case name.
pub open spec fn mode_name_spec(s: Seq<char>) -> Seq<char> {
    title_case_spec(first_segment_spec(s))
}

/// The live-game data endpoint for a route.
pub open spec fn live_url_spec(s: Seq<char>) -> Seq<char> {
    "https://game-server.geoguessr.com/api"@ + "/"@ + normalize_team_spec(s)
}

/// The offline-game data endpoint: the game id is the route with its game
/// prefix removed.
pub open spec fn offline_url_spec(s: Seq<char>) -> Seq<char> {
    "https://www.geoguessr.com/api/v3/games"@ + "/"@ + strip_prefix_spec(s, "/game/"@)
}

/// The map-metadata endpoint: the map id is the route with its maps prefix
/// removed.
pub open spec fn map_url_spec(s: Seq<char>) -> Seq<char> {
    "https://www.geoguessr.com/api/maps"@ + "/"@ + strip_prefix_spec(s, "/maps/"@)
}

/// The player-identity endpoint, fetched once at startup.
pub fn player_url() -> (s: String)
    ensures
        s@ == "https://www.geoguessr.com/api/v3/profiles/"@,
{
    String::from_str("https://www.geoguessr.com/api/v3/profiles/")
}

fn normalize_team(path: &str) -> (r: String)
    ensures
        r@ == normalize_team_spec(path@),
{
    if starts_with(path, "/team-") {
        let mut r = String::from_str("/");
        let tail = strip_prefix_or_self(path, "/team-");
        r.append(tail.as_str());
        proof {
            assert(r@ =~= normalize_team_spec(path@));
        }
        r
    } else {
        path.to_owned()
    }
}

fn live_step(path: &str) -> (step: TickStep)
    ensures
        step matches TickStep::FetchLive { url, game_mode } && url@ == live_url_spec(path@)
            && game_mode@ == mode_name_spec(path@),
{
    let seg = first_segment(path);
    let game_mode = title_case(seg.as_str());
    let mut url = String::from_str("https://game-server.geoguessr.com/api");
    url.append("/");
    let base = normalize_team(path);
    url.append(base.as_str());
    proof {
        assert(url@ =~= live_url_spec(path@));
    }
    TickStep::FetchLive { url, game_mode }
}

fn offline_step(path: &str) -> (step: TickStep)
    ensures
        step matches TickStep::FetchOffline { url } && url@ == offline_url_spec(path@),
{
    let mut url = String::from_str("https://www.geoguessr.com/api/v3/games");
    url.append("/");
    let id = strip_prefix_or_self(path, "/game/");
    url.append(id.as_str());
    proof {
        assert(url@ =~= offline_url_spec(path@));
    }
    TickStep::FetchOffline { url }
}

fn map_step(path: &str) -> (step: TickStep)
    ensures
        step matches TickStep::FetchMap { url, label } && url@ == map_url_spec(path@) && label@
            == "Looking at map"@,
{
    let mut url = String::from_str("https://www.geoguessr.com/api/maps");
    url.append("/");
    let id = strip_prefix_or_self(path, "/maps/");
    url.append(id.as_str());
    proof {
        assert(url@ =~= map_url_spec(path@));
    }
    TickStep::FetchMap { url, label: String::from_str("Looking at map") }
}

/// What a dispatching tick on `path` must hand back: the fetch or presence
/// action of the route's class, with its endpoint and tags.
pub open spec fn dispatch_matches(step: TickStep, path: Seq<char>) -> bool {
    match step {
        TickStep::Wait => false,
        TickStep::FetchLive { url, game_mode } => is_live_path(path) && url@ == live_url_spec(path)
            && game_mode@ == mode_name_spec(path),
        TickStep::FetchOffline { url } => !is_live_path(path) && is_offline_path(path) && url@
            == offline_url_spec(path),
        TickStep::FetchMap { url, label } => !is_game_path(path) && starts_with_spec(
            path,
            "/maps"@,
        ) && url@ == map_url_spec(path) && label@ == "Looking at map"@,
        TickStep::ShowMenu { label, show_path } => !is_game_path(path) && !starts_with_spec(
            path,
            "/maps"@,
        ) && class_matches(RouteClass::MenuLike { label, show_path }, path),
    }
}

fn dispatch(path: &str) -> (step: TickStep)
    ensures
        dispatch_matches(step, path@),
{
    match classify(path) {
        RouteClass::LiveMultiplayer => live_step(path),
        RouteClass::OfflineGame => offline_step(path),
        RouteClass::MapBrowsing => map_step(path),
        RouteClass::MenuLike { label, show_path } => TickStep::ShowMenu { label, show_path },
    }
}

/// One poller tick: classifies the sample, debounces an unchanged game
/// route, and answers with the tick's action.
pub fn poll_tick(state: &mut PollerState, sampled: &str) -> (step: TickStep)
    ensures
        final(state)@ == tick_next(old(state)@, sampled@),
        (step is Wait) <==> !tick_acts(old(state)@, sampled@),
        tick_acts(old(state)@, sampled@) ==> dispatch_matches(step, sampled@),
{
    if state.debounce_left > 0 {
        if crate::text::str_eq(sampled, state.last_path.as_str()) {
            state.debounce_left = state.debounce_left - 1;
            if state.debounce_left > 0 {
                return TickStep::Wait;
            }
        } else {
            state.debounce_left = 0;
        }
    } else {
        let c = classify(sampled);
        let game = match c {
            RouteClass::LiveMultiplayer => true,
            RouteClass::OfflineGame => true,
            _ => false,
        };
        if game && crate::text::str_eq(sampled, state.last_path.as_str()) {
            state.debounce_left = RETRY_BUDGET;
            return TickStep::Wait;
        }
    }
    state.last_path = sampled.to_owned();
    dispatch(sampled)
}

/// The dispatch decisions a run of ticks makes, one per sample.
pub open spec fn run_acts(m: PollerModel, samples: Seq<Seq<char>>) -> Seq<bool>
    decreases samples.len(),
{
    if samples.len() == 0 {
        Seq::empty()
    } else {
        seq![tick_acts(m, samples[0])] + run_acts(tick_next(m, samples[0]), samples.drop_first())
    }
}

/// A run of ticks makes one decision per sample.
pub proof fn lemma_run_acts_len(m: PollerModel, samples: Seq<Seq<char>>)
    ensures
        run_acts(m, samples).len() == samples.len(),
    decreases samples.len(),
{
    if samples.len() > 0 {
        lemma_run_acts_len(tick_next(m, samples[0]), samples.drop_first());
    }
}

proof fn lemma_hold_while_budget_lasts(m: PollerModel, p: Seq<char>, samples: Seq<Seq<char>>)
    requires
        m.last == p,
        m.left > samples.len(),
        forall|i: int| 0 <= i < samples.len() ==> samples[i] == p,
    ensures
        forall|i: int|
            0 <= i < samples.len() ==> !(#[trigger] run_acts(m, samples)[i]),
    decreases samples.len(),
{
    if samples.len() > 0 {
        assert(samples[0] == p);
        lemma_hold_while_budget_lasts(tick_next(m, samples[0]), p, samples.drop_first());
        assert forall|i: int| 0 <= i < samples.len() implies !(#[trigger] run_acts(m, samples)[i]) by {
            lemma_run_acts_len(m, samples);
            lemma_run_acts_len(tick_next(m, samples[0]), samples.drop_first());
            if i > 0 {
                assert(run_acts(m, samples)[i] == run_acts(
                    tick_next(m, samples[0]),
                    samples.drop_first(),
                )[i - 1]);
            }
        }
    }
}

/// The debounce rule: once a game route has been dispatched, re-sampling the
/// unchanged path issues no second fetch for it until the whole retry budget
/// is spent — every tick within the budget only waits.
pub proof fn lemma_debounce_suppresses_refetch(
    m: PollerModel,
    p: Seq<char>,
    samples: Seq<Seq<char>>,
)
    requires
        m.last == p,
        m.left == 0,
        is_game_path(p),
        forall|i: int| 0 <= i < samples.len() ==> samples[i] == p,
        samples.len() <= RETRY_BUDGET,
    ensures
        forall|i: int|
            0 <= i < samples.len() ==> !(#[trigger] run_acts(m, samples)[i]),
{
    if samples.len() > 0 {
        assert(samples[0] == p);
        assert(!tick_acts(m, samples[0]));
        lemma_hold_while_budget_lasts(tick_next(m, samples[0]), p, samples.drop_first());
        assert forall|i: int| 0 <= i < samples.len() implies !(#[trigger] run_acts(m, samples)[i]) by {
            lemma_run_acts_len(m, samples);
            lemma_run_acts_len(tick_next(m, samples[0]), samples.drop_first());
            if i > 0 {
                assert(run_acts(m, samples)[i] == run_acts(
                    tick_next(m, samples[0]),
                    samples.drop_first(),
                )[i - 1]);
            }
        }
    }
}

proof fn lemma_debounce_budget_spent(m: PollerModel, p: Seq<char>, samples: Seq<Seq<char>>)
    requires
        m.last == p,
        samples.len() >= 1,
        m.left == samples.len(),
        forall|i: int| 0 <= i < samples.len() ==> samples[i] == p,
    ensures
        forall|i: int|
            0 <= i < samples.len() - 1 ==> !(#[trigger] run_acts(m, samples)[i]),
        run_acts(m, samples)[samples.len() - 1],
    decreases samples.len(),
{
    lemma_run_acts_len(m, samples);
    assert(samples[0] == p);
    let m1 = tick_next(m, samples[0]);
    let rest = samples.drop_first();
    lemma_run_acts_len(m1, rest);
    if samples.len() == 1 {
        assert(tick_acts(m, samples[0]));
    } else {
        assert(!tick_acts(m, samples[0]));
        assert(m1.last == p && m1.left == m.left - 1);
        lemma_debounce_budget_spent(m1, p, rest);
        assert forall|i: int|
            1 <= i < samples.len() implies run_acts(m, samples)[i] == run_acts(m1, rest)[i
            - 1] by {}
    }
}

/// The debounce rule, second half: when every sample of the whole retry
/// budget still shows the unchanged game path, the tick after the last one
/// gives up waiting and dispatches that path after all.
pub proof fn lemma_debounce_exhaustion(m: PollerModel, p: Seq<char>, samples: Seq<Seq<char>>)
    requires
        m.last == p,
        m.left == 0,
        is_game_path(p),
        samples.len() == RETRY_BUDGET + 1,
        forall|i: int| 0 <= i < samples.len() ==> samples[i] == p,
    ensures
        forall|i: int|
            0 <= i < samples.len() - 1 ==> !(#[trigger] run_acts(m, samples)[i]),
        run_acts(m, samples)[samples.len() - 1],
{
    lemma_run_acts_len(m, samples);
    assert(samples[0] == p);
    assert(!tick_acts(m, samples[0]));
    let m1 = tick_next(m, samples[0]);
    let rest = samples.drop_first();
    lemma_run_acts_len(m1, rest);
    assert(m1.last == p && m1.left == RETRY_BUDGET);
    lemma_debounce_budget_spent(m1, p, rest);
    assert forall|i: int|
        1 <= i < samples.len() implies run_acts(m, samples)[i] == run_acts(m1, rest)[i - 1] by {}
}

/// The debounce rule, other half: the moment a changed path is sampled, the
/// pending debounce is dropped and the tick dispatches the new path at once.
pub proof fn lemma_change_restarts_tick(m: PollerModel, q: Seq<char>)
    requires
        m.left > 0,
        q != m.last,
    ensures
        tick_acts(m, q),
        tick_next(m, q).last == q,
        tick_next(m, q).left == 0,
{
}

} // verus!
