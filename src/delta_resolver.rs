use vstd::prelude::*;

use crate::context_version::{
    LastPulledUserSessionVersionAndContextVersions, PushedUserSessionDeltasWithRessourceDescriptors,
};
use crate::identifier::Identifier;
use crate::ressources_descriptors::{RessourcesDescriptors, RessourcesDescriptorsKind};

verus! {

/// A context as the store holds it: its id, its current version, and the
/// descriptors of its resources.
pub type StoreEntry = (Identifier, u64, Seq<RessourcesDescriptorsKind>);

/// The version a client reports for `id`: that of the first pair for `id`,
/// or 0 when no pair names it (a context the client has never seen).
pub open spec fn reported_version(cs: Seq<(Identifier, u64)>, id: Identifier) -> u64
    decreases cs.len(),
{
    if cs.len() == 0 {
        0
    } else if cs[0].0 == id {
        cs[0].1
    } else {
        reported_version(cs.skip(1), id)
    }
}

/// A context has changed for the client when its current version is
/// strictly greater than the one the client reports.
pub open spec fn is_changed(cs: Seq<(Identifier, u64)>, e: StoreEntry) -> bool {
    e.1 > reported_version(cs, e.0)
}

/// The descriptors of all changed contexts, context by context in the
/// store's order, each context's in catalog order.
pub open spec fn candidates(cs: Seq<(Identifier, u64)>, store: Seq<StoreEntry>) -> Seq<RessourcesDescriptorsKind>
    decreases store.len(),
{
    if store.len() == 0 {
        Seq::empty()
    } else {
        (if is_changed(cs, store[0]) {
            store[0].2
        } else {
            Seq::empty()
        }) + candidates(cs, store.skip(1))
    }
}

/// The page of at most `k` candidates that one answer carries.
pub open spec fn page(cs: Seq<(Identifier, u64)>, store: Seq<StoreEntry>, k: nat) -> Seq<RessourcesDescriptorsKind> {
    let c = candidates(cs, store);
    if c.len() <= k {
        c
    } else {
        c.take(k as int)
    }
}

/// Whether candidates were left out of the page.
pub open spec fn has_more(cs: Seq<(Identifier, u64)>, store: Seq<StoreEntry>, k: nat) -> bool {
    candidates(cs, store).len() > k
}

/// The store's `(context id, version)` pairs, in its order.
pub open spec fn store_versions(store: Seq<StoreEntry>) -> Seq<(Identifier, u64)> {
    store.map_values(|e: StoreEntry| (e.0, e.1))
}

/// The ids of the contexts that have changed for the client.
pub open spec fn changed_ids(cs: Seq<(Identifier, u64)>, store: Seq<StoreEntry>) -> Set<Identifier> {
    Set::new(|id: Identifier| exists|i: int| 0 <= i < store.len() && store[i].0 == id && is_changed(cs, store[i]))
}

/// One context of a store snapshot.
pub struct StoreContextEntry {
    context_id: Identifier,
    context_version: u64,
    descriptors: RessourcesDescriptors,
}

impl StoreContextEntry {
    pub closed spec fn spec_entry(&self) -> StoreEntry {
        (self.context_id, self.context_version, self.descriptors@)
    }

    pub fn new(context_id: Identifier, context_version: u64, descriptors: RessourcesDescriptors) -> (r: Self)
        ensures
            r.spec_entry() == (context_id, context_version, descriptors@),
    {
        StoreContextEntry { context_id, context_version, descriptors }
    }
}

/// The authoritative versions and resource lists that the store hands the
/// resolver for one user, at one point in time.
pub struct StoreSnapshot {
    user_session_version: u64,
    contexts: Vec<StoreContextEntry>,
}

impl StoreSnapshot {
    pub closed spec fn spec_user_session_version(&self) -> u64 {
        self.user_session_version
    }

    pub closed spec fn spec_entries(&self) -> Seq<StoreEntry> {
        self.contexts@.map_values(|c: StoreContextEntry| c.spec_entry())
    }

    pub fn new(user_session_version: u64, contexts: Vec<StoreContextEntry>) -> (r: Self)
        ensures
            r.spec_user_session_version() == user_session_version,
            r.spec_entries() == contexts@.map_values(|c: StoreContextEntry| c.spec_entry()),
    {
        StoreSnapshot { user_session_version, contexts }
    }
}

/// The version that `contexts` reports for `id`, 0 when none does.
pub fn client_version_of(contexts: &Vec<(Identifier, u64)>, id: Identifier) -> (r: u64)
    ensures
        r == reported_version(contexts@, id),
{
    let mut i: usize = 0;
    assert(contexts@.skip(0) =~= contexts@);
    while i < contexts.len()
        invariant
            i <= contexts@.len(),
            reported_version(contexts@, id) == reported_version(contexts@.skip(i as int), id),
        decreases contexts@.len() - i,
    {
        assert(contexts@.skip(i as int).skip(1) =~= contexts@.skip(i + 1));
        if contexts[i].0 == id {
            return contexts[i].1;
        }
        i += 1;
    }
    0
}

/// Candidates of a concatenation of stores are the concatenation of their
/// candidates.
pub proof fn lemma_candidates_append(cs: Seq<(Identifier, u64)>, a: Seq<StoreEntry>, b: Seq<StoreEntry>)
    ensures
        candidates(cs, a + b) == candidates(cs, a) + candidates(cs, b),
    decreases a.len(),
{
    if a.len() == 0 {
        assert(a + b =~= b);
    } else {
        assert((a + b).skip(1) =~= a.skip(1) + b);
        lemma_candidates_append(cs, a.skip(1), b);
        assert((a + b)[0] == a[0]);
    }
}

/// Candidates of a single context.
pub proof fn lemma_candidates_single(cs: Seq<(Identifier, u64)>, e: StoreEntry)
    ensures
        candidates(cs, seq![e]) == if is_changed(cs, e) { e.2 } else { Seq::<RessourcesDescriptorsKind>::empty() },
{
    assert(seq![e].skip(1) =~= Seq::<StoreEntry>::empty());
    assert(candidates(cs, Seq::<StoreEntry>::empty()) == Seq::<RessourcesDescriptorsKind>::empty());
    assert(candidates(cs, seq![e]) =~= if is_changed(cs, e) { e.2 } else { Seq::<RessourcesDescriptorsKind>::empty() });
}

/// No two contexts of the store share an id.
pub open spec fn unique_ids(store: Seq<StoreEntry>) -> bool {
    forall|i: int, j: int| 0 <= i < j < store.len() ==> store[i].0 != store[j].0
}

/// No pair of `q` names a context of the store.
pub open spec fn ids_absent(q: Seq<(Identifier, u64)>, store: Seq<StoreEntry>) -> bool {
    forall|a: int, i: int| 0 <= a < q.len() && 0 <= i < store.len() ==> q[a].0 != store[i].0
}

/// The contexts whose descriptors one page of at most `budget` carries
/// whole: walking the store in order, each changed context is taken while
/// its descriptors still fit, up to the first one that does not.
pub open spec fn delivered(cs: Seq<(Identifier, u64)>, store: Seq<StoreEntry>, budget: nat) -> Seq<(Identifier, u64)>
    decreases store.len(),
{
    if store.len() == 0 {
        Seq::empty()
    } else if !is_changed(cs, store[0]) {
        delivered(cs, store.skip(1), budget)
    } else if store[0].2.len() <= budget {
        seq![(store[0].0, store[0].1)] + delivered(cs, store.skip(1), (budget - store[0].2.len()) as nat)
    } else {
        Seq::empty()
    }
}

/// The descriptors of the contexts of [`delivered`], in order.
pub open spec fn delivered_descriptors(cs: Seq<(Identifier, u64)>, store: Seq<StoreEntry>, budget: nat) -> Seq<RessourcesDescriptorsKind>
    decreases store.len(),
{
    if store.len() == 0 {
        Seq::empty()
    } else if !is_changed(cs, store[0]) {
        delivered_descriptors(cs, store.skip(1), budget)
    } else if store[0].2.len() <= budget {
        store[0].2 + delivered_descriptors(cs, store.skip(1), (budget - store[0].2.len()) as nat)
    } else {
        Seq::empty()
    }
}

/// The client state after taking in one answer with page size `k`: the
/// contexts it received whole now report their current version; the
/// others keep what they reported.
pub open spec fn fold_pull_state(cs: Seq<(Identifier, u64)>, store: Seq<StoreEntry>, k: nat) -> Seq<(Identifier, u64)> {
    delivered(cs, store, k) + cs
}

/// How many contexts of the store have changed for the client.
pub open spec fn changed_count(cs: Seq<(Identifier, u64)>, store: Seq<StoreEntry>) -> nat
    decreases store.len(),
{
    if store.len() == 0 {
        0
    } else {
        (if is_changed(cs, store[0]) { 1nat } else { 0nat }) + changed_count(cs, store.skip(1))
    }
}

/// The client state after `n` rounds of pulling with page size `k` and
/// folding each answer in.
pub open spec fn state_after_rounds(cs: Seq<(Identifier, u64)>, store: Seq<StoreEntry>, k: nat, n: nat) -> Seq<(Identifier, u64)>
    decreases n,
{
    if n == 0 {
        cs
    } else {
        state_after_rounds(fold_pull_state(cs, store, k), store, k, (n - 1) as nat)
    }
}

/// All descriptors received over `n` such rounds, page after page.
pub open spec fn pulled_over_rounds(cs: Seq<(Identifier, u64)>, store: Seq<StoreEntry>, k: nat, n: nat) -> Seq<RessourcesDescriptorsKind>
    decreases n,
{
    if n == 0 {
        Seq::empty()
    } else {
        page(cs, store, k) + pulled_over_rounds(fold_pull_state(cs, store, k), store, k, (n - 1) as nat)
    }
}

proof fn lemma_reported_version_skip_prefix(p: Seq<(Identifier, u64)>, cs: Seq<(Identifier, u64)>, id: Identifier)
    requires
        forall|a: int| 0 <= a < p.len() ==> p[a].0 != id,
    ensures
        reported_version(p + cs, id) == reported_version(cs, id),
    decreases p.len(),
{
    if p.len() > 0 {
        assert((p + cs).skip(1) =~= p.skip(1) + cs);
        assert((p + cs)[0] == p[0]);
        lemma_reported_version_skip_prefix(p.skip(1), cs, id);
    } else {
        assert(p + cs =~= cs);
    }
}

proof fn lemma_absent_prefix_keeps_candidates(q: Seq<(Identifier, u64)>, cs: Seq<(Identifier, u64)>, store: Seq<StoreEntry>)
    requires
        ids_absent(q, store),
    ensures
        candidates(q + cs, store) == candidates(cs, store),
        changed_count(q + cs, store) == changed_count(cs, store),
    decreases store.len(),
{
    if store.len() > 0 {
        lemma_reported_version_skip_prefix(q, cs, store[0].0);
        lemma_absent_prefix_keeps_candidates(q, cs, store.skip(1));
    }
}

proof fn lemma_delivered_ids_from_store(cs: Seq<(Identifier, u64)>, store: Seq<StoreEntry>, budget: nat, id: Identifier)
    requires
        forall|i: int| 0 <= i < store.len() ==> store[i].0 != id,
    ensures
        forall|a: int| 0 <= a < delivered(cs, store, budget).len() ==> delivered(cs, store, budget)[a].0 != id,
    decreases store.len(),
{
    if store.len() > 0 {
        let rest = store.skip(1);
        assert(forall|i: int| 0 <= i < rest.len() ==> rest[i] == store[i + 1]);
        if !is_changed(cs, store[0]) {
            lemma_delivered_ids_from_store(cs, rest, budget, id);
            assert(delivered(cs, store, budget) == delivered(cs, rest, budget));
        } else if store[0].2.len() <= budget {
            let b2 = (budget - store[0].2.len()) as nat;
            lemma_delivered_ids_from_store(cs, rest, b2, id);
            let d = delivered(cs, store, budget);
            assert(d == seq![(store[0].0, store[0].1)] + delivered(cs, rest, b2));
            assert forall|a: int| 0 <= a < d.len() implies d[a].0 != id by {
                if a == 0 {
                    assert(store[0].0 != id);
                } else {
                    assert(d[a] == delivered(cs, rest, b2)[a - 1]);
                }
            }
        }
    }
}

proof fn lemma_fold_splits_candidates(cs: Seq<(Identifier, u64)>, store: Seq<StoreEntry>, budget: nat, q: Seq<(Identifier, u64)>)
    requires
        unique_ids(store),
        ids_absent(q, store),
    ensures
        candidates(cs, store) == delivered_descriptors(cs, store, budget) + candidates(
            q + delivered(cs, store, budget) + cs,
            store,
        ),
        changed_count(cs, store) == delivered(cs, store, budget).len() + changed_count(
            q + delivered(cs, store, budget) + cs,
            store,
        ),
        delivered_descriptors(cs, store, budget).len() <= budget,
        changed_count(cs, store) > 0 && (forall|i: int| 0 <= i < store.len() ==> store[i].2.len() <= budget)
            ==> delivered(cs, store, budget).len() > 0,
    decreases store.len(),
{
    if store.len() == 0 {
        return;
    }
    let e = store[0];
    let rest = store.skip(1);
    assert(unique_ids(rest));
    assert(forall|i: int| 0 <= i < rest.len() ==> rest[i].0 != e.0);
    if !is_changed(cs, e) {
        lemma_fold_splits_candidates(cs, rest, budget, q);
        let d = delivered(cs, rest, budget);
        lemma_delivered_ids_from_store(cs, rest, budget, e.0);
        assert forall|a: int| 0 <= a < (q + d).len() implies (q + d)[a].0 != e.0 by {
            if a >= q.len() {
                assert((q + d)[a] == d[a - q.len()]);
            }
        }
        lemma_reported_version_skip_prefix(q + d, cs, e.0);
        if changed_count(cs, store) > 0 && (forall|i: int| 0 <= i < store.len() ==> store[i].2.len() <= budget) {
            assert(forall|i: int| 0 <= i < rest.len() ==> rest[i] == store[i + 1]);
        }
    } else if e.2.len() <= budget {
        let b2 = (budget - e.2.len()) as nat;
        let p = (e.0, e.1);
        let q2 = q.push(p);
        lemma_fold_splits_candidates(cs, rest, b2, q2);
        let d2 = delivered(cs, rest, b2);
        let st = q + delivered(cs, store, budget) + cs;
        assert(delivered(cs, store, budget) == seq![p] + d2);
        assert(st =~= q2 + d2 + cs);
        assert(st =~= q + (seq![p] + (d2 + cs)));
        lemma_reported_version_skip_prefix(q, seq![p] + (d2 + cs), e.0);
        assert((seq![p] + (d2 + cs))[0] == p);
        assert(!is_changed(st, e));
        assert(candidates(cs, store) =~= delivered_descriptors(cs, store, budget) + candidates(st, store));
    } else {
        assert(q + delivered(cs, store, budget) + cs =~= q + cs);
        lemma_absent_prefix_keeps_candidates(q, cs, store);
    }
}

proof fn lemma_no_change_no_candidates(cs: Seq<(Identifier, u64)>, store: Seq<StoreEntry>)
    requires
        changed_count(cs, store) == 0,
    ensures
        candidates(cs, store) == Seq::<RessourcesDescriptorsKind>::empty(),
    decreases store.len(),
{
    if store.len() > 0 {
        lemma_no_change_no_candidates(cs, store.skip(1));
        assert(candidates(cs, store) =~= Seq::<RessourcesDescriptorsKind>::empty());
    }
}

proof fn lemma_changed_count_bound(cs: Seq<(Identifier, u64)>, store: Seq<StoreEntry>)
    ensures
        changed_count(cs, store) <= store.len(),
    decreases store.len(),
{
    if store.len() > 0 {
        lemma_changed_count_bound(cs, store.skip(1));
    }
}

proof fn lemma_rounds_exhaust(cs: Seq<(Identifier, u64)>, store: Seq<StoreEntry>, k: nat, n: nat)
    requires
        unique_ids(store),
        forall|i: int| 0 <= i < store.len() ==> store[i].2.len() <= k,
        changed_count(cs, store) <= n,
    ensures
        candidates(state_after_rounds(cs, store, k, n), store) == Seq::<RessourcesDescriptorsKind>::empty(),
        pulled_over_rounds(cs, store, k, n).to_set() == candidates(cs, store).to_set(),
    decreases n,
{
    if n == 0 {
        lemma_no_change_no_candidates(cs, store);
        assert(pulled_over_rounds(cs, store, k, n).to_set() =~= candidates(cs, store).to_set());
    } else {
        let d = delivered(cs, store, k);
        let next = fold_pull_state(cs, store, k);
        let empty = Seq::<(Identifier, u64)>::empty();
        lemma_fold_splits_candidates(cs, store, k, empty);
        assert(empty + d + cs =~= next);
        lemma_rounds_exhaust(next, store, k, (n - 1) as nat);
        let c = candidates(cs, store);
        let dd = delivered_descriptors(cs, store, k);
        let pg = page(cs, store, k);
        let later = pulled_over_rounds(next, store, k, (n - 1) as nat);
        let c2 = candidates(next, store);
        assert(c == dd + c2);
        assert(pulled_over_rounds(cs, store, k, n) == pg + later);
        assert forall|x: RessourcesDescriptorsKind| (pg + later).contains(x) <==> c.contains(x) by {
            if (pg + later).contains(x) {
                let j = choose|j: int| 0 <= j < (pg + later).len() && (pg + later)[j] == x;
                if j < pg.len() {
                    assert(c[j] == x);
                } else {
                    assert(later[j - pg.len()] == x);
                    assert(later.to_set().contains(x));
                    assert(c2.contains(x));
                    let j2 = choose|j2: int| 0 <= j2 < c2.len() && c2[j2] == x;
                    assert(c[dd.len() + j2] == x);
                }
            }
            if c.contains(x) {
                let j = choose|j: int| 0 <= j < c.len() && c[j] == x;
                if j < dd.len() {
                    assert(pg[j] == x);
                    assert((pg + later)[j] == x);
                } else {
                    assert(c2[j - dd.len()] == x);
                    assert(c2.to_set().contains(x));
                    assert(later.contains(x));
                    let j2 = choose|j2: int| 0 <= j2 < later.len() && later[j2] == x;
                    assert((pg + later)[pg.len() + j2] == x);
                }
            }
        }
        assert(pulled_over_rounds(cs, store, k, n).to_set() =~= c.to_set());
    }
}

/// Pulling page after page with page size `k`, and folding each answer into
/// the client state, ends: after as many rounds as the store has contexts
/// nothing is left to pull (the next answer has no more descriptors), and
/// the descriptors received over the rounds are, as a set, those a single
/// pull with no page limit returns. This holds when the store's context ids
/// are unique and no context has more than `k` descriptors.
pub proof fn lemma_pagination_exhaustion(cs: Seq<(Identifier, u64)>, store: Seq<StoreEntry>, k: nat, n: nat)
    requires
        unique_ids(store),
        forall|i: int| 0 <= i < store.len() ==> store[i].2.len() <= k,
        n >= store.len(),
    ensures
        !has_more(state_after_rounds(cs, store, k, n), store, k),
        page(state_after_rounds(cs, store, k, n), store, k) == Seq::<RessourcesDescriptorsKind>::empty(),
        pulled_over_rounds(cs, store, k, n).to_set() == page(
            cs,
            store,
            candidates(cs, store).len(),
        ).to_set(),
{
    lemma_changed_count_bound(cs, store);
    lemma_rounds_exhaust(cs, store, k, n);
}

proof fn lemma_nothing_changed(cs: Seq<(Identifier, u64)>, store: Seq<StoreEntry>)
    requires
        forall|i: int| 0 <= i < store.len() ==> !is_changed(cs, #[trigger] store[i]),
    ensures
        candidates(cs, store) == Seq::<RessourcesDescriptorsKind>::empty(),
    decreases store.len(),
{
    if store.len() > 0 {
        assert(forall|i: int| 0 <= i < store.skip(1).len() ==> store.skip(1)[i] == store[i + 1]);
        lemma_nothing_changed(cs, store.skip(1));
        assert(candidates(cs, store) =~= Seq::<RessourcesDescriptorsKind>::empty());
    }
}

proof fn lemma_store_reports_own_versions(store: Seq<StoreEntry>, i: int)
    requires
        unique_ids(store),
        0 <= i < store.len(),
    ensures
        reported_version(store_versions(store), store[i].0) == store[i].1,
    decreases store.len(),
{
    let sv = store_versions(store);
    assert(sv.skip(1) =~= store_versions(store.skip(1)));
    if i > 0 {
        assert(store.skip(1)[i - 1] == store[i]);
        assert(unique_ids(store.skip(1)));
        lemma_store_reports_own_versions(store.skip(1), i - 1);
    }
}

/// A second pull made with the versions that the first answer reported
/// (against `store1`) sees, against `store2`:
/// nothing changed, no descriptor and no further page when the store has not
/// moved; only contexts whose version rose since the first answer, each
/// reported at a version above the one the client now holds; and, when the
/// first client state was not ahead of `store1`, a subset of what that state
/// would see against `store2`.
pub proof fn lemma_delta_monotonicity(
    cs1: Seq<(Identifier, u64)>,
    store1: Seq<StoreEntry>,
    store2: Seq<StoreEntry>,
    k: nat,
)
    requires
        unique_ids(store1),
        unique_ids(store2),
    ensures
        store2 == store1 ==> {
            &&& changed_ids(store_versions(store1), store2) == Set::<Identifier>::empty()
            &&& page(store_versions(store1), store2, k) == Seq::<RessourcesDescriptorsKind>::empty()
            &&& !has_more(store_versions(store1), store2, k)
        },
        forall|i: int| 0 <= i < store2.len() && is_changed(store_versions(store1), #[trigger] store2[i]) ==> {
            &&& store2[i].1 > reported_version(store_versions(store1), store2[i].0)
            &&& reported_version(store_versions(store2), store2[i].0) == store2[i].1
        },
        (forall|id: Identifier| reported_version(cs1, id) <= #[trigger] reported_version(store_versions(store1), id))
            ==> changed_ids(store_versions(store1), store2).subset_of(changed_ids(cs1, store2)),
{
    let cs2 = store_versions(store1);
    if store2 == store1 {
        assert forall|i: int| 0 <= i < store2.len() implies !is_changed(cs2, #[trigger] store2[i]) by {
            lemma_store_reports_own_versions(store1, i);
        }
        lemma_nothing_changed(cs2, store2);
        assert(changed_ids(cs2, store2) =~= Set::<Identifier>::empty());
    }
    assert forall|i: int| 0 <= i < store2.len() && is_changed(cs2, #[trigger] store2[i]) implies
        reported_version(store_versions(store2), store2[i].0) == store2[i].1 by {
        lemma_store_reports_own_versions(store2, i);
    }
}

/// On a first sync (the client reports no context) every context whose
/// version is above 0 has changed, and no other.
pub proof fn lemma_first_sync_completeness(store: Seq<StoreEntry>)
    ensures
        forall|e: StoreEntry| #[trigger] is_changed(Seq::<(Identifier, u64)>::empty(), e) <==> e.1 > 0,
        changed_ids(Seq::<(Identifier, u64)>::empty(), store) == Set::new(
            |id: Identifier| exists|i: int| 0 <= i < store.len() && store[i].0 == id && store[i].1 > 0,
        ),
{
    let empty = Seq::<(Identifier, u64)>::empty();
    assert forall|e: StoreEntry| #[trigger] is_changed(empty, e) <==> e.1 > 0 by {
        assert(reported_version(empty, e.0) == 0);
    }
    assert(changed_ids(empty, store) =~= Set::new(
        |id: Identifier| exists|i: int| 0 <= i < store.len() && store[i].0 == id && store[i].1 > 0,
    ));
}

/// Computes what the client must pull: every context of the store whose
/// version is above the one the client reports (0 when it reports none)
/// contributes its descriptors, in the store's order; the answer carries the
/// first `max_descriptor_amount` of them, says whether any were left out,
/// and reports the store's current versions.
pub fn resolve_delta(
    state: &LastPulledUserSessionVersionAndContextVersions,
    store: &StoreSnapshot,
) -> (r: PushedUserSessionDeltasWithRessourceDescriptors)
    ensures
        r.spec_user_id() == state.spec_user_id(),
        r.spec_current_user_session_version() == store.spec_user_session_version(),
        r.spec_current_user_context_versions() == store_versions(store.spec_entries()),
        r.spec_ressources_descriptors()@ == page(
            state.spec_contexts(),
            store.spec_entries(),
            state.spec_max_descriptor_amount() as nat,
        ),
        r.spec_has_more_ressources() == has_more(
            state.spec_contexts(),
            store.spec_entries(),
            state.spec_max_descriptor_amount() as nat,
        ),
{
    let k = state.max_descriptor_amount();
    let contexts = state.contexts();
    let ghost cs = contexts@;
    let ghost entries = store.spec_entries();
    let mut out = RessourcesDescriptors::new_empty();
    let mut more = false;
    let mut versions: Vec<(Identifier, u64)> = Vec::new();
    let mut i: usize = 0;
    while i < store.contexts.len()
        invariant
            i <= store.contexts@.len(),
            entries == store.spec_entries(),
            entries.len() == store.contexts@.len(),
            cs == state.spec_contexts(),
            contexts@ == cs,
            k == state.spec_max_descriptor_amount(),
            versions@ == store_versions(entries.take(i as int)),
            ({
                let c = candidates(cs, entries.take(i as int));
                &&& out@ == if c.len() <= k { c } else { c.take(k as int) }
                &&& more == (c.len() > k)
            }),
        decreases store.contexts@.len() - i,
    {
        let entry = &store.contexts[i];
        let ghost e = entries[i as int];
        assert(e == entry.spec_entry());
        versions.push((entry.context_id, entry.context_version));
        let ghost before = candidates(cs, entries.take(i as int));
        proof {
            assert(entries.take(i + 1) =~= entries.take(i as int) + seq![e]);
            lemma_candidates_append(cs, entries.take(i as int), seq![e]);
            lemma_candidates_single(cs, e);
        }
        if entry.context_version > client_version_of(contexts, entry.context_id) {
            let mut it = entry.descriptors.iter();
            let mut j: usize = 0;
            let n = entry.descriptors.len();
            while j < n
                invariant
                    j <= n,
                    n == e.2.len(),
                    it.items() == e.2,
                    it.position() == j,
                    ({
                        let c = before + e.2.take(j as int);
                        &&& out@ == if c.len() <= k { c } else { c.take(k as int) }
                        &&& more == (c.len() > k)
                    }),
                decreases n - j,
            {
                let item = it.next();
                let d = *item.unwrap().kind();
                let ghost c0 = before + e.2.take(j as int);
                let ghost c1 = before + e.2.take(j + 1);
                assert(c1 =~= c0.push(d));
                if out.len() < k {
                    out.add_ressource_descriptor(d);
                    assert(out@ =~= c1);
                } else {
                    more = true;
                    assert(c0.take(k as int) =~= c1.take(k as int));
                }
                j += 1;
            }
            assert(e.2.take(j as int) =~= e.2);
        }
        i += 1;
        proof {
            assert(store_versions(entries.take(i as int)) =~= store_versions(entries.take(i - 1)).push((e.0, e.1)));
        }
    }
    assert(entries.take(i as int) =~= entries);
    PushedUserSessionDeltasWithRessourceDescriptors::new(
        state.user_id(),
        store.user_session_version,
        versions,
        out,
        more,
    )
}

} // verus!
