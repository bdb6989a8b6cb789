//! The bridge invoker's host-side half: a fresh correlation identifier, the
//! script evaluated inside the embedded surface, and the classification of
//! what comes back through the completion entry point.
//!
//! The script is assembled from a fixed template and a set of literal
//! parameters — the fetched URL, the tag fields attached to the response,
//! and the correlation identifier — each constrained to text that cannot
//! escape its place in the template, so page-controlled content cannot turn
//! into script.

use vstd::prelude::*;
use vstd::string::StringExecFns;
use serde_json::Value;
use rand::Rng;
use crate::pool::CorrelationPool;
use crate::pool::PendingRequest;

verus! {

broadcast use vstd::string::group_string_axioms;

/// A character that may stand inside a single- or double-quoted piece of the
/// script template without ending or escaping it.
pub open spec fn js_safe_char(c: char) -> bool {
    c != '\'' && c != '"' && c != '\\' && c != '\n' && c != '\r'
}

/// Text that may be spliced into a quoted place of the script template.
pub open spec fn js_safe_text(s: Seq<char>) -> bool {
    forall|i: int| 0 <= i < s.len() ==> js_safe_char(#[trigger] s[i])
}

/// A letter, digit or underscore: what a tag-field name may consist of.
pub open spec fn ident_char(c: char) -> bool {
    ('a' <= c && c <= 'z') || ('A' <= c && c <= 'Z') || ('0' <= c && c <= '9') || c == '_'
}

/// A nonempty tag-field name of identifier characters.
pub open spec fn ident_text(s: Seq<char>) -> bool {
    s.len() > 0 && (forall|i: int| 0 <= i < s.len() ==> ident_char(#[trigger] s[i]))
}

/// The tag fields that may be attached to a response: named by identifiers,
/// with splice-safe literal values.
pub open spec fn safe_extras(extras: Seq<(String, String)>) -> bool {
    forall|k: int|
        0 <= k < extras.len() ==> ident_text(#[trigger] extras[k].0@) && js_safe_text(extras[k].1@)
}

/// Checks one string for splice safety, so an unverified caller can test the
/// condition before handing a sampled path onward.
pub fn is_js_safe_text(s: &str) -> (r: bool)
    ensures
        r == js_safe_text(s@),
{
    let n = s.unicode_len();
    let mut i: usize = 0;
    while i < n
        invariant
            i <= n,
            n == s@.len(),
            forall|j: int| 0 <= j < i ==> js_safe_char(#[trigger] s@[j]),
        decreases n - i,
    {
        let c = s.get_char(i);
        if c == '\'' || c == '"' || c == '\\' || c == '\n' || c == '\r' {
            return false;
        }
        i += 1;
    }
    true
}

/// An alphanumeric ASCII character: what a correlation identifier consists
/// of.
pub open spec fn alnum_char(c: char) -> bool {
    ('a' <= c && c <= 'z') || ('A' <= c && c <= 'Z') || ('0' <= c && c <= '9')
}

/// Relies on rand's `Alphanumeric` distribution, which samples uniformly
/// from the ASCII letters and digits: a fresh 32-character correlation
/// identifier.
#[verifier::external_body]
fn fresh_id() -> (id: String)
    ensures
        id@.len() == 32,
        forall|i: int| 0 <= i < id@.len() ==> alnum_char(#[trigger] id@[i]),
{
    rand::rng().sample_iter(&rand::distr::Alphanumeric).take(32).map(char::from).collect()
}

/// The statements that copy each tag field onto the fetched response object.
pub open spec fn extras_script(extras: Seq<(String, String)>) -> Seq<char>
    decreases extras.len(),
{
    if extras.len() == 0 {
        Seq::empty()
    } else {
        "response."@ + extras[0].0@ + " = \""@ + extras[0].1@ + "\";"@ + extras_script(
            extras.drop_first(),
        )
    }
}

/// The whole embedded script: a credentialed fetch of the URL, the response
/// parsed as JSON and tagged with the extra fields, any failure captured as
/// an `err` field, and the outcome handed back to the host's completion
/// entry point under the correlation identifier.
pub open spec fn script_spec(url: Seq<char>, extras: Seq<(String, String)>, id: Seq<char>) -> Seq<
    char,
> {
    "(async () => { let response; try { const request = await fetch('"@ + url
        + "', { method: 'GET', credentials: 'include' }); response = await request.json(); "@
        + extras_script(extras)
        + " } catch (error) { response = { err: error.toString() }; } window.__TAURI__.core.invoke('cb', { json: response, id: '"@
        + id + "' }); })();"@
}

fn extras_part(extras: &Vec<(String, String)>) -> (s: String)
    ensures
        s@ == extras_script(extras@),
{
    let mut s = String::new();
    let n = extras.len();
    let mut i: usize = 0;
    while i < n
        invariant
            i <= n,
            n == extras@.len(),
            s@ == extras_script(extras@.take(i as int)),
        decreases n - i,
    {
        s.append("response.");
        s.append(extras[i].0.as_str());
        s.append(" = \"");
        s.append(extras[i].1.as_str());
        s.append("\";");
        proof {
            lemma_extras_script_snoc(extras@.take(i as int + 1));
            assert(extras@.take(i as int + 1).drop_last() =~= extras@.take(i as int));
            assert(s@ =~= extras_script(extras@.take(i as int + 1)));
        }
        i += 1;
    }
    proof {
        assert(extras@.take(n as int) =~= extras@);
    }
    s
}

proof fn lemma_extras_script_snoc(extras: Seq<(String, String)>)
    requires
        extras.len() > 0,
    ensures
        extras_script(extras) == extras_script(extras.drop_last()) + ("response."@
            + extras.last().0@ + " = \""@ + extras.last().1@ + "\";"@),
    decreases extras.len(),
{
    if extras.len() == 1 {
        assert(extras.drop_last() =~= Seq::<(String, String)>::empty());
        assert(extras.drop_first() =~= Seq::<(String, String)>::empty());
        assert(extras_script(extras) =~= extras_script(extras.drop_last()) + ("response."@
            + extras.last().0@ + " = \""@ + extras.last().1@ + "\";"@));
    } else {
        lemma_extras_script_snoc(extras.drop_first());
        assert(extras.drop_first().drop_last() =~= extras.drop_last().drop_first());
        assert(extras.drop_first().last() == extras.last());
        assert(extras.drop_last()[0] == extras[0]);
        assert(extras.drop_last().len() > 0);
        assert(extras_script(extras) =~= extras_script(extras.drop_last()) + ("response."@
            + extras.last().0@ + " = \""@ + extras.last().1@ + "\";"@));
    }
}

/// Builds the script for one bridge call from its literal parameters.
pub fn build_script(url: &str, extras: &Vec<(String, String)>, id: &str) -> (script: String)
    requires
        js_safe_text(url@),
        safe_extras(extras@),
        js_safe_text(id@),
    ensures
        script@ == script_spec(url@, extras@, id@),
{
    let mut script = String::from_str(
        "(async () => { let response; try { const request = await fetch('",
    );
    script.append(url);
    script.append("', { method: 'GET', credentials: 'include' }); response = await request.json(); ");
    let ex = extras_part(extras);
    script.append(ex.as_str());
    script.append(
        " } catch (error) { response = { err: error.toString() }; } window.__TAURI__.core.invoke('cb', { json: response, id: '",
    );
    script.append(id);
    script.append("' }); })();");
    proof {
        assert(script@ =~= script_spec(url@, extras@, id@));
    }
    script
}

/// Opens one bridge call: draws a fresh identifier, files the caller's
/// delivery slot in the pool under it, and builds the script to evaluate.
/// The call is pending from this moment; evaluating the script and awaiting
/// the slot is the unverified shell's part.
pub fn prepare_request<S>(
    pool: &mut CorrelationPool<S>,
    url: &str,
    extras: &Vec<(String, String)>,
    slot: S,
) -> (r: (String, String))
    requires
        js_safe_text(url@),
        safe_extras(extras@),
    ensures
        r.0@.len() == 32,
        forall|i: int| 0 <= i < r.0@.len() ==> alnum_char(#[trigger] r.0@[i]),
        r.1@ == script_spec(url@, extras@, r.0@),
        final(pool)@ == old(pool)@.push((PendingRequest { id: r.0, slot })),
{
    let id = fresh_id();
    proof {
        assert forall|i: int| 0 <= i < id@.len() implies js_safe_char(#[trigger] id@[i]) by {
            assert(alnum_char(id@[i]));
        }
    }
    let script = build_script(url, extras, id.as_str());
    pool.register(id.clone(), slot);
    (id, script)
}

/// The tag fields of a live-game fetch: the payload discriminator and the
/// mode name derived from the route.
pub fn live_extras(game_mode: String) -> (extras: Vec<(String, String)>)
    ensures
        extras@.len() == 2,
        extras@[0].0@ == "game_type"@ && extras@[0].1@ == "live"@,
        extras@[1].0@ == "game_mode"@ && extras@[1].1@ == game_mode@,
{
    let mut extras: Vec<(String, String)> = Vec::new();
    extras.push((String::from_str("game_type"), String::from_str("live")));
    extras.push((String::from_str("game_mode"), game_mode));
    extras
}

/// The tag field of an offline-game fetch: the payload discriminator alone.
pub fn offline_extras() -> (extras: Vec<(String, String)>)
    ensures
        extras@.len() == 1,
        extras@[0].0@ == "game_type"@ && extras@[0].1@ == "offline"@,
{
    let mut extras: Vec<(String, String)> = Vec::new();
    extras.push((String::from_str("game_type"), String::from_str("offline")));
    extras
}

/// What one completed bridge call reported: the fetched value, or the text
/// of the error the embedded script caught.
pub enum BridgeOutcome {
    Success(Value),
    Failure(String),
}

/// Classifies a reported payload by its sole failure discriminator: an `err`
/// field present makes it a failure carrying that field's text, anything
/// else a success carrying the payload itself, unmodified.
pub fn callback_outcome(json: Value) -> (r: BridgeOutcome)
    ensures
        r is Failure <==> crate::jsonval::json_field_of(json, "err"@) is Some,
        r matches BridgeOutcome::Success(p) ==> p == json,
        r matches BridgeOutcome::Failure(m) ==> (crate::jsonval::json_field_of(json, "err"@)
            matches Some(e) && m@ == crate::jsonval::json_text_of(e)),
{
    let err_text = match crate::jsonval::value_field_text(&json, "err") {
        Some(t) => t,
        None => {
            return BridgeOutcome::Success(json);
        },
    };
    BridgeOutcome::Failure(err_text)
}

} // verus!
