use faces_common_types::context_version::{
    LastPulledUserSessionVersionAndContextVersions, PushedUserSessionDeltasWithRessourceDescriptors,
};
use faces_common_types::delta_resolver::{
    client_version_of, resolve_delta, StoreContextEntry, StoreSnapshot,
};
use faces_common_types::ressources_descriptors::{RessourcesDescriptors, RessourcesDescriptorsKind};
use faces_common_types::Identifier;

fn id(n: u8) -> Identifier {
    Identifier::from_bytes([n; 16])
}

fn anims(ids: &[u8]) -> RessourcesDescriptors {
    let mut d = RessourcesDescriptors::new_empty();
    for &n in ids {
        d.add_ressource_descriptor(RessourcesDescriptorsKind::new_animation_descriptor(id(n)));
    }
    d
}

fn store(session: u64, contexts: &[(u8, u64, &[u8])]) -> StoreSnapshot {
    StoreSnapshot::new(
        session,
        contexts
            .iter()
            .map(|(c, v, a)| StoreContextEntry::new(id(*c), *v, anims(a)))
            .collect(),
    )
}

fn pull(contexts: Vec<(Identifier, u64)>, k: usize) -> LastPulledUserSessionVersionAndContextVersions {
    LastPulledUserSessionVersionAndContextVersions::new(id(200), 0, contexts, k)
}

fn descriptor_ids(r: &PushedUserSessionDeltasWithRessourceDescriptors) -> Vec<Identifier> {
    let mut out = Vec::new();
    let mut it = r.ressources_descriptors().iter();
    while let Some(d) = it.next() {
        out.push(d.kind().get_id());
    }
    out
}

#[test]
fn example_two_contexts_both_changed() {
    // store {A: 3, B: 1}; client {A: 1}; page of 10
    let s = store(7, &[(1, 3, &[10, 11]), (2, 1, &[20])]);
    let r = resolve_delta(&pull(vec![(id(1), 1)], 10), &s);
    assert_eq!(descriptor_ids(&r), vec![id(10), id(11), id(20)]);
    assert!(!r.has_more_ressources());
    assert_eq!(r.current_user_session_version(), 7);
    assert_eq!(r.current_user_context_versions(), vec![(id(1), 3), (id(2), 1)]);
    assert_eq!(r.user_id(), id(200));
}

#[test]
fn first_sync_takes_every_context_above_zero() {
    let s = store(4, &[(1, 2, &[10]), (2, 0, &[20]), (3, 1, &[30, 31])]);
    let r = resolve_delta(&pull(vec![], 10), &s);
    assert_eq!(descriptor_ids(&r), vec![id(10), id(30), id(31)]);
    assert!(!r.has_more_ressources());
}

#[test]
fn unchanged_contexts_give_an_empty_page() {
    let s = store(9, &[(1, 3, &[10]), (2, 1, &[20])]);
    let r = resolve_delta(&pull(vec![(id(1), 3), (id(2), 5)], 10), &s);
    assert!(descriptor_ids(&r).is_empty());
    assert!(!r.has_more_ressources());
    assert_eq!(r.current_user_session_version(), 9);
}

#[test]
fn page_is_truncated_and_flags_more() {
    let s = store(1, &[(1, 1, &[10, 11, 12]), (2, 1, &[20])]);
    let r = resolve_delta(&pull(vec![], 2), &s);
    assert_eq!(descriptor_ids(&r), vec![id(10), id(11)]);
    assert!(r.has_more_ressources());
    let exact = resolve_delta(&pull(vec![], 4), &s);
    assert_eq!(exact.ressources_descriptors().len(), 4);
    assert!(!exact.has_more_ressources());
}

#[test]
fn zero_page_size_carries_nothing() {
    let s = store(1, &[(1, 1, &[10])]);
    let r = resolve_delta(&pull(vec![], 0), &s);
    assert!(descriptor_ids(&r).is_empty());
    assert!(r.has_more_ressources());
    let quiet = store(1, &[(1, 1, &[])]);
    assert!(!resolve_delta(&pull(vec![], 0), &quiet).has_more_ressources());
}

#[test]
fn second_pull_from_first_answer_sees_nothing_when_store_is_still() {
    let s = store(3, &[(1, 3, &[10]), (2, 1, &[20])]);
    let first = resolve_delta(&pull(vec![(id(1), 1)], 10), &s);
    let second = resolve_delta(&pull(first.current_user_context_versions(), 10), &s);
    assert!(descriptor_ids(&second).is_empty());
    assert!(!second.has_more_ressources());
}

#[test]
fn second_pull_sees_only_contexts_advanced_since() {
    let s1 = store(3, &[(1, 3, &[10]), (2, 1, &[20]), (3, 2, &[30])]);
    let first = resolve_delta(&pull(vec![], 10), &s1);
    let s2 = store(4, &[(1, 3, &[10]), (2, 2, &[20, 21]), (3, 2, &[30])]);
    let second = resolve_delta(&pull(first.current_user_context_versions(), 10), &s2);
    assert_eq!(descriptor_ids(&second), vec![id(20), id(21)]);
    assert_eq!(second.current_user_context_versions(), vec![(id(1), 3), (id(2), 2), (id(3), 2)]);
}

#[test]
fn pagination_with_folding_reaches_the_full_set() {
    let s = store(5, &[(1, 2, &[10, 11]), (2, 1, &[20]), (3, 0, &[30]), (4, 6, &[40, 41])]);
    let k = 2;
    let full = resolve_delta(&pull(vec![], usize::MAX), &s);
    let mut full_ids = descriptor_ids(&full);
    let groups: Vec<(Identifier, u64, usize)> =
        vec![(id(1), 2, 2), (id(2), 1, 1), (id(3), 0, 1), (id(4), 6, 2)];
    let mut client: Vec<(Identifier, u64)> = vec![];
    let mut got: Vec<Identifier> = vec![];
    let mut rounds = 0;
    loop {
        rounds += 1;
        assert!(rounds <= 4);
        let r = resolve_delta(&pull(client.clone(), k), &s);
        got.extend(descriptor_ids(&r));
        if !r.has_more_ressources() {
            break;
        }
        // take in the contexts received whole
        let mut budget = k;
        let mut delivered = vec![];
        for (c, v, n) in &groups {
            if *v > client_version_of(&client, *c) {
                if *n <= budget {
                    budget -= n;
                    delivered.push((*c, *v));
                } else {
                    break;
                }
            }
        }
        delivered.extend(client);
        client = delivered;
    }
    got.sort_by_key(|i| i.into_bytes());
    got.dedup();
    full_ids.sort_by_key(|i| i.into_bytes());
    assert_eq!(got, full_ids);
}

#[test]
fn client_version_defaults_to_zero_and_takes_first_entry() {
    let cs = vec![(id(1), 4), (id(1), 9)];
    assert_eq!(client_version_of(&cs, id(1)), 4);
    assert_eq!(client_version_of(&cs, id(2)), 0);
}
