use chat_router::connection::ConnectionRegistry;
use chat_router::roster::{GroupCache, Membership};
use chat_router::session::{get_user_id, Session, SessionRegistry};

fn members(answer: Membership) -> Option<Vec<u64>> {
    match answer {
        Membership::Cached(list) => Some(list),
        Membership::Fetch => None,
    }
}

#[test]
fn unknown_token_is_nobody() {
    let mut sessions = SessionRegistry::new(4);
    assert_eq!(sessions.authenticate(7), None);
}

#[test]
fn bound_token_stands_for_its_user() {
    let mut sessions = SessionRegistry::new(4);
    sessions.bind(7, 70);
    sessions.bind(8, 80);
    assert_eq!(sessions.authenticate(7), Some(70));
    assert_eq!(sessions.authenticate(8), Some(80));
    assert_eq!(sessions.authenticate(9), None);
}

#[test]
fn two_tokens_may_stand_for_one_user() {
    let mut sessions = SessionRegistry::new(4);
    sessions.bind(1, 5);
    sessions.bind(2, 5);
    assert_eq!(sessions.authenticate(1), Some(5));
    assert_eq!(sessions.authenticate(2), Some(5));
}

#[test]
fn binding_again_overwrites() {
    let mut sessions = SessionRegistry::new(4);
    sessions.bind(7, 70);
    sessions.bind(7, 71);
    assert_eq!(sessions.authenticate(7), Some(71));
}

#[test]
fn one_more_binding_than_capacity_evicts_the_first() {
    let mut sessions = SessionRegistry::new(3);
    sessions.bind(1, 10);
    sessions.bind(2, 20);
    sessions.bind(3, 30);
    sessions.bind(4, 40);
    assert_eq!(sessions.authenticate(1), None);
    assert_eq!(sessions.authenticate(2), Some(20));
    assert_eq!(sessions.authenticate(3), Some(30));
    assert_eq!(sessions.authenticate(4), Some(40));
}

#[test]
fn a_lookup_counts_as_a_use() {
    let mut sessions = SessionRegistry::new(2);
    sessions.bind(1, 10);
    sessions.bind(2, 20);
    assert_eq!(sessions.authenticate(1), Some(10));
    sessions.bind(3, 30);
    assert_eq!(sessions.authenticate(2), None);
    assert_eq!(sessions.authenticate(1), Some(10));
    assert_eq!(sessions.authenticate(3), Some(30));
}

#[test]
fn overwriting_in_a_full_registry_evicts_nobody() {
    let mut sessions = SessionRegistry::new(2);
    sessions.bind(1, 10);
    sessions.bind(2, 20);
    sessions.bind(1, 11);
    assert_eq!(sessions.authenticate(2), Some(20));
    assert_eq!(sessions.authenticate(1), Some(11));
}

#[test]
fn registry_of_one_keeps_the_latest() {
    let mut sessions = SessionRegistry::new(1);
    sessions.bind(1, 10);
    sessions.bind(2, 20);
    assert_eq!(sessions.authenticate(1), None);
    assert_eq!(sessions.authenticate(2), Some(20));
}

#[test]
fn get_user_id_reads_the_session() {
    let mut sessions = SessionRegistry::new(2);
    sessions.bind(u128::MAX, u64::MAX);
    assert_eq!(get_user_id(&mut sessions, Session { session_id: u128::MAX }), Some(u64::MAX));
    assert_eq!(get_user_id(&mut sessions, Session { session_id: 0 }), None);
}

#[test]
fn empty_cache_orders_a_fetch() {
    let mut groups = GroupCache::new(4);
    assert!(matches!(groups.get_members(9), Membership::Fetch));
}

#[test]
fn fetched_members_are_cached() {
    let mut groups = GroupCache::new(4);
    let fetched = groups.complete_fetch(9, Some(vec![1, 2, 3]));
    assert_eq!(fetched, vec![1, 2, 3]);
    assert_eq!(members(groups.get_members(9)), Some(vec![1, 2, 3]));
    assert_eq!(members(groups.get_members(8)), None);
}

#[test]
fn failed_fetch_caches_nothing() {
    let mut groups = GroupCache::new(4);
    let fetched = groups.complete_fetch(9, None);
    assert_eq!(fetched, Vec::<u64>::new());
    assert!(matches!(groups.get_members(9), Membership::Fetch));
}

#[test]
fn invalidate_forces_the_next_lookup_to_fetch() {
    let mut groups = GroupCache::new(4);
    groups.complete_fetch(9, Some(vec![1, 2]));
    groups.complete_fetch(8, Some(vec![3]));
    groups.invalidate(9);
    assert!(matches!(groups.get_members(9), Membership::Fetch));
    assert_eq!(members(groups.get_members(8)), Some(vec![3]));
    groups.complete_fetch(9, Some(vec![1, 2, 4]));
    assert_eq!(members(groups.get_members(9)), Some(vec![1, 2, 4]));
}

#[test]
fn invalidate_of_an_absent_group_changes_nothing() {
    let mut groups = GroupCache::new(4);
    groups.complete_fetch(8, Some(vec![3]));
    groups.invalidate(9);
    assert_eq!(members(groups.get_members(8)), Some(vec![3]));
}

#[test]
fn full_cache_evicts_the_least_recently_used_group() {
    let mut groups = GroupCache::new(2);
    groups.complete_fetch(1, Some(vec![10]));
    groups.complete_fetch(2, Some(vec![20]));
    assert_eq!(members(groups.get_members(1)), Some(vec![10]));
    groups.complete_fetch(3, Some(vec![30]));
    assert_eq!(members(groups.get_members(2)), None);
    assert_eq!(members(groups.get_members(1)), Some(vec![10]));
    assert_eq!(members(groups.get_members(3)), Some(vec![30]));
}

#[test]
fn lookup_of_a_stranger_finds_nothing() {
    let connections = ConnectionRegistry::new();
    assert!(connections.lookup(1).is_none());
    assert!(connections.has_room());
}

#[test]
fn register_hands_out_fresh_numbers() {
    let mut connections = ConnectionRegistry::new();
    let (a, _ra) = tokio::sync::mpsc::channel::<String>(2);
    let (b, _rb) = tokio::sync::mpsc::channel::<String>(2);
    let first = connections.register(1, a);
    let second = connections.register(2, b);
    assert_eq!(first.id, 0);
    assert_eq!(second.id, 1);
    assert!(first.superseded.is_none());
    assert!(second.superseded.is_none());
    assert_eq!(connections.lookup(1).map(|c| c.id), Some(0));
    assert_eq!(connections.lookup(2).map(|c| c.id), Some(1));
}

#[test]
fn second_registration_supersedes_the_first() {
    let mut connections = ConnectionRegistry::new();
    let (a, mut ra) = tokio::sync::mpsc::channel::<String>(2);
    let (b, mut rb) = tokio::sync::mpsc::channel::<String>(2);
    let first = connections.register(1, a);
    let second = connections.register(1, b);
    let superseded = second.superseded.expect("the first connection is handed back");
    assert_eq!(superseded.id, first.id);
    assert_eq!(connections.lookup(1).map(|c| c.id), Some(second.id));
    connections.lookup(1).unwrap().outbound.try_send("to the second".to_string()).unwrap();
    assert_eq!(rb.try_recv().ok(), Some("to the second".to_string()));
    assert!(ra.try_recv().is_err());
    superseded.outbound.try_send("to the first".to_string()).unwrap();
    assert_eq!(ra.try_recv().ok(), Some("to the first".to_string()));
}

#[test]
fn stale_unregister_keeps_the_newer_connection() {
    let mut connections = ConnectionRegistry::new();
    let (a, _ra) = tokio::sync::mpsc::channel::<String>(2);
    let (b, _rb) = tokio::sync::mpsc::channel::<String>(2);
    let first = connections.register(1, a);
    let second = connections.register(1, b);
    assert!(connections.unregister(1, first.id).is_none());
    assert_eq!(connections.lookup(1).map(|c| c.id), Some(second.id));
}

#[test]
fn unregister_removes_the_live_connection() {
    let mut connections = ConnectionRegistry::new();
    let (a, _ra) = tokio::sync::mpsc::channel::<String>(2);
    let (b, _rb) = tokio::sync::mpsc::channel::<String>(2);
    let first = connections.register(1, a);
    let other = connections.register(2, b);
    let removed = connections.unregister(1, first.id).expect("the live connection leaves");
    assert_eq!(removed.id, first.id);
    assert!(connections.lookup(1).is_none());
    assert_eq!(connections.lookup(2).map(|c| c.id), Some(other.id));
    assert!(connections.unregister(1, first.id).is_none());
}

#[test]
fn unregister_with_another_users_number_removes_nothing() {
    let mut connections = ConnectionRegistry::new();
    let (a, _ra) = tokio::sync::mpsc::channel::<String>(2);
    let (b, _rb) = tokio::sync::mpsc::channel::<String>(2);
    let first = connections.register(1, a);
    let other = connections.register(2, b);
    assert!(connections.unregister(1, other.id).is_none());
    assert!(connections.unregister(3, first.id).is_none());
    assert_eq!(connections.lookup(1).map(|c| c.id), Some(first.id));
    assert_eq!(connections.lookup(2).map(|c| c.id), Some(other.id));
}
