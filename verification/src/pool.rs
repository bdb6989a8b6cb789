//! The correlation pool: a table of pending bridge requests, keyed by an
//! opaque identifier, each holding the one-shot slot its waiter listens on.
//!
//! Resolution is exactly-once by construction: the slot leaves the table
//! together with its entry, in one step, so a duplicate or late completion
//! for the same identifier finds nothing and changes nothing.

use vstd::prelude::*;
use crate::text::str_eq;

verus! {

/// One pending bridge request: the correlation identifier and the slot the
/// outcome is delivered through.
pub struct PendingRequest<S> {
    pub id: String,
    pub slot: S,
}

/// The table of pending requests. The slot type is opaque to the pool: the
/// caller decides what a delivery handle is.
pub struct CorrelationPool<S> {
    entries: Vec<PendingRequest<S>>,
}

impl<S> View for CorrelationPool<S> {
    type V = Seq<PendingRequest<S>>;

    closed spec fn view(&self) -> Seq<PendingRequest<S>> {
        self.entries@
    }
}

/// Whether some entry of `s` carries the identifier `id`.
pub open spec fn contains_id<S>(s: Seq<PendingRequest<S>>, id: Seq<char>) -> bool {
    exists|i: int| 0 <= i < s.len() && s[i].id@ == id
}

/// The entries of `s` that do not carry `id`, in their old order.
pub open spec fn remove_all<S>(s: Seq<PendingRequest<S>>, id: Seq<char>) -> Seq<PendingRequest<S>>
    decreases s.len(),
{
    if s.len() == 0 {
        Seq::empty()
    } else if s.last().id@ == id {
        remove_all(s.drop_last(), id)
    } else {
        remove_all(s.drop_last(), id).push(s.last())
    }
}

/// What one resolution call does to the table: on a miss it hands back
/// nothing and leaves the table alone; on a hit it hands back the slot of an
/// entry carrying `id` and deletes every entry carrying `id`.
pub open spec fn resolve_post<S>(
    pre: Seq<PendingRequest<S>>,
    post: Seq<PendingRequest<S>>,
    id: Seq<char>,
    r: Option<S>,
) -> bool {
    match r {
        Option::None => !contains_id(pre, id) && post == pre,
        Option::Some(slot) => contains_id(pre, id) && (exists|i: int|
            0 <= i < pre.len() && pre[i].id@ == id && pre[i].slot == slot) && post == remove_all(
            pre,
            id,
        ),
    }
}

impl<S> CorrelationPool<S> {
    /// The empty table.
    pub fn new() -> (p: CorrelationPool<S>)
        ensures
            p@ == Seq::<PendingRequest<S>>::empty(),
    {
        CorrelationPool { entries: Vec::new() }
    }

    /// How many requests are pending.
    pub fn len(&self) -> (n: usize)
        ensures
            n == self@.len(),
    {
        self.entries.len()
    }

    /// Whether a request with this identifier is pending.
    pub fn contains(&self, id: &str) -> (r: bool)
        ensures
            r == contains_id(self@, id@),
    {
        let n = self.entries.len();
        let mut i: usize = 0;
        while i < n
            invariant
                i <= n,
                n == self@.len(),
                forall|j: int| 0 <= j < i ==> self@[j].id@ != id@,
            decreases n - i,
        {
            if str_eq(self.entries[i].id.as_str(), id) {
                return true;
            }
            i += 1;
        }
        false
    }

    /// Files a new pending request under `id`.
    pub fn register(&mut self, id: String, slot: S)
        ensures
            final(self)@ == old(self)@.push((PendingRequest { id, slot })),
    {
        self.entries.push(PendingRequest { id, slot });
    }

    /// Resolves `id`: takes the slot of a pending entry with that identifier
    /// out of the table, removing the entry (and any duplicate of it) in the
    /// same step, or answers `None` when nothing is pending under `id` — a
    /// duplicate or unknown completion is a no-op.
    pub fn resolve(&mut self, id: &str) -> (r: Option<S>)
        ensures
            resolve_post(old(self)@, final(self)@, id@, r),
            r is Some <==> contains_id(old(self)@, id@),
    {
        let ghost pre = self@;
        let total = self.entries.len();
        proof {
            assert(pre.len() == total);
        }
        let mut found: Option<S> = None;
        let mut kept: Vec<PendingRequest<S>> = Vec::new();
        let mut k: usize = 0;
        let ghost n = pre.len();
        while self.entries.len() > 0
            invariant
                k + self.entries@.len() == n,
                n == pre.len(),
                n <= usize::MAX,
                self.entries@ == pre.skip(k as int),
                kept@ == remove_all(pre.take(k as int), id@),
                found is None ==> forall|j: int| 0 <= j < k ==> pre[j].id@ != id@,
                found matches Some(slot) ==> exists|j: int|
                    0 <= j < k && pre[j].id@ == id@ && pre[j].slot == slot,
            decreases self.entries@.len(),
        {
            let e = self.entries.remove(0);
            proof {
                assert(e == pre[k as int]);
                assert(pre.skip(k as int).remove(0) =~= pre.skip(k as int + 1));
                assert(pre.take(k as int + 1).drop_last() =~= pre.take(k as int));
                assert(pre.take(k as int + 1).last() == pre[k as int]);
            }
            if str_eq(e.id.as_str(), id) {
                if found.is_none() {
                    found = Some(e.slot);
                }
            } else {
                kept.push(e);
            }
            k += 1;
        }
        proof {
            assert(pre.take(k as int) =~= pre);
            if found is None {
                lemma_remove_all_noop(pre, id@);
            }
        }
        self.entries = kept;
        found
    }
}

/// Removal changes nothing when no entry carries `id`.
proof fn lemma_remove_all_noop<S>(s: Seq<PendingRequest<S>>, id: Seq<char>)
    requires
        !contains_id(s, id),
    ensures
        remove_all(s, id) == s,
    decreases s.len(),
{
    if s.len() > 0 {
        assert(s.last().id@ != id);
        assert forall|i: int| 0 <= i < s.drop_last().len() implies s.drop_last()[i].id@ != id by {
            assert(s[i].id@ != id);
        }
        lemma_remove_all_noop(s.drop_last(), id);
        assert(remove_all(s, id) =~= s);
    } else {
        assert(remove_all(s, id) =~= s);
    }
}

/// After every entry carrying `id` is removed, nothing carries `id`.
proof fn lemma_remove_all_removes<S>(s: Seq<PendingRequest<S>>, id: Seq<char>)
    ensures
        !contains_id(remove_all(s, id), id),
    decreases s.len(),
{
    if s.len() > 0 {
        lemma_remove_all_removes(s.drop_last(), id);
        if s.last().id@ != id {
            let t = remove_all(s.drop_last(), id);
            assert forall|i: int|
                0 <= i < t.push(s.last()).len() implies t.push(s.last())[i].id@ != id by {
                if i < t.len() {
                    assert(!contains_id(t, id));
                    assert(t[i].id@ != id);
                }
            }
        }
    }
}

/// At most one pending request per identifier: the table's intended shape.
/// Registration keeps it as long as the identifier is fresh, and resolution
/// keeps it unconditionally.
pub open spec fn unique_ids<S>(s: Seq<PendingRequest<S>>) -> bool {
    forall|i: int, j: int| 0 <= i < j < s.len() ==> s[i].id@ != s[j].id@
}

/// Every identifier among the kept entries was an identifier of `s`.
proof fn lemma_remove_all_id_member<S>(s: Seq<PendingRequest<S>>, x: Seq<char>, k: int)
    requires
        0 <= k < remove_all(s, x).len(),
    ensures
        exists|j: int| 0 <= j < s.len() && remove_all(s, x)[k].id@ == s[j].id@,
    decreases s.len(),
{
    let t = s.drop_last();
    if s.last().id@ == x {
        lemma_remove_all_id_member(t, x, k);
        let j = choose|j: int| 0 <= j < t.len() && remove_all(t, x)[k].id@ == t[j].id@;
        assert(remove_all(s, x)[k].id@ == s[j].id@);
    } else {
        let u = remove_all(t, x);
        if k < u.len() {
            lemma_remove_all_id_member(t, x, k);
            let j = choose|j: int| 0 <= j < t.len() && u[k].id@ == t[j].id@;
            assert(remove_all(s, x)[k].id@ == s[j].id@);
        } else {
            assert(remove_all(s, x)[k].id@ == s[s.len() - 1].id@);
        }
    }
}

/// Removal keeps identifiers unique.
proof fn lemma_remove_all_keeps_unique<S>(s: Seq<PendingRequest<S>>, x: Seq<char>)
    requires
        unique_ids(s),
    ensures
        unique_ids(remove_all(s, x)),
    decreases s.len(),
{
    if s.len() > 0 {
        let t = s.drop_last();
        assert forall|i: int, j: int| 0 <= i < j < t.len() implies t[i].id@ != t[j].id@ by {
            assert(s[i].id@ != s[j].id@);
        }
        lemma_remove_all_keeps_unique(t, x);
        if s.last().id@ != x {
            let u = remove_all(t, x);
            assert forall|k: int| 0 <= k < u.len() implies u[k].id@ != s.last().id@ by {
                lemma_remove_all_id_member(t, x, k);
                let j = choose|j: int| 0 <= j < t.len() && u[k].id@ == t[j].id@;
                assert(s[j].id@ != s[s.len() - 1].id@);
            }
            assert forall|i: int, j: int|
                0 <= i < j < u.push(s.last()).len() implies u.push(s.last())[i].id@ != u.push(
                s.last(),
            )[j].id@ by {
                if j < u.len() {
                    assert(u[i].id@ != u[j].id@);
                } else {
                    assert(u[i].id@ != s.last().id@);
                }
            }
        }
    }
}

/// Registration under a fresh identifier keeps the table's identifiers
/// unique.
pub proof fn lemma_register_keeps_ids_unique<S>(s: Seq<PendingRequest<S>>, e: PendingRequest<S>)
    requires
        unique_ids(s),
        !contains_id(s, e.id@),
    ensures
        unique_ids(s.push(e)),
{
    assert forall|i: int, j: int|
        0 <= i < j < s.push(e).len() implies s.push(e)[i].id@ != s.push(e)[j].id@ by {
        if j < s.len() {
            assert(s[i].id@ != s[j].id@);
        } else {
            assert(s[i].id@ != e.id@);
        }
    }
}

/// Resolution keeps the table's identifiers unique, whether it hit or
/// missed.
pub proof fn lemma_resolve_keeps_ids_unique<S>(
    pre: Seq<PendingRequest<S>>,
    post: Seq<PendingRequest<S>>,
    id: Seq<char>,
    r: Option<S>,
)
    requires
        resolve_post(pre, post, id, r),
        unique_ids(pre),
    ensures
        unique_ids(post),
{
    if r is Some {
        lemma_remove_all_keeps_unique(pre, id);
    }
}

/// Exactly-once resolution: of two successive resolutions for the same
/// identifier, at most one delivers a slot; once one has delivered, the next
/// finds nothing and leaves the table untouched.
pub proof fn lemma_exactly_once_resolution<S>(
    p0: Seq<PendingRequest<S>>,
    p1: Seq<PendingRequest<S>>,
    p2: Seq<PendingRequest<S>>,
    id: Seq<char>,
    r1: Option<S>,
    r2: Option<S>,
)
    requires
        resolve_post(p0, p1, id, r1),
        resolve_post(p1, p2, id, r2),
    ensures
        !(r1 is Some && r2 is Some),
        r1 is Some ==> r2 is None && p2 == p1,
{
    if r1 is Some {
        lemma_remove_all_removes(p0, id);
    }
}

} // verus!
