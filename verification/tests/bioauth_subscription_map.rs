use biostatus::bioauth_logic::bioauth_subscription_map::{
    BioauthNotificationState, BioauthSubscriptionMap,
};
use biostatus::hash_keys::keys_of;
use std::collections::HashMap;

fn busy() -> BioauthNotificationState {
    BioauthNotificationState {
        last_block_number_notified: 4,
        next_block_number_to_notify: 14,
        alerted_at: Some(1000),
    }
}

#[test]
fn fresh_state_is_all_zero_and_absent() {
    assert_eq!(
        BioauthNotificationState::default(),
        BioauthNotificationState {
            last_block_number_notified: 0,
            next_block_number_to_notify: 0,
            alerted_at: None
        }
    );
}

#[test]
fn new_registry_is_empty() {
    let map: BioauthSubscriptionMap<u64> = BioauthSubscriptionMap::new();
    assert_eq!(map.pairings(), vec![]);
    assert!(map.get(&0).is_none());
    let map: BioauthSubscriptionMap<u64> = BioauthSubscriptionMap::default();
    assert_eq!(map.state(&0, 0), None);
}

#[test]
fn subscribe_starts_fresh_and_keeps_what_is_there() {
    let mut map = BioauthSubscriptionMap::new();
    map.subscribe("k", 1);
    assert_eq!(map.state(&"k", 1), Some(BioauthNotificationState::default()));
    assert_eq!(map.state(&"k", 2), None);
    assert_eq!(map.state(&"j", 1), None);
    map.set_state("k", 1, busy());
    map.subscribe("k", 1);
    assert_eq!(map.state(&"k", 1), Some(busy()));
    map.subscribe("k", 2);
    assert_eq!(map.state(&"k", 1), Some(busy()));
    assert_eq!(map.state(&"k", 2), Some(BioauthNotificationState::default()));
    assert_eq!(map.get(&"k").unwrap().len(), 2);
}

#[test]
fn set_state_changes_nothing_for_a_missing_pairing() {
    let mut map = BioauthSubscriptionMap::new();
    map.set_state(1u8, 1, busy());
    assert!(map.get(&1u8).is_none());
    map.subscribe(1u8, 1);
    map.set_state(1u8, 2, busy());
    map.set_state(2u8, 1, busy());
    assert_eq!(map.pairings(), vec![(1u8, 1)]);
    assert_eq!(map.state(&1u8, 1), Some(BioauthNotificationState::default()));
}

#[test]
fn unsubscribe_removes_one_pairing() {
    let mut map = BioauthSubscriptionMap::new();
    map.unsubscribe(1u8, 1);
    assert!(map.get(&1u8).is_none());
    map.subscribe(1u8, 1);
    map.subscribe(1u8, 2);
    map.subscribe(2u8, 1);
    map.set_state(1u8, 2, busy());
    map.unsubscribe(1u8, 1);
    map.unsubscribe(1u8, 3);
    map.unsubscribe(3u8, 1);
    let mut pairings = map.pairings();
    pairings.sort();
    assert_eq!(pairings, vec![(1u8, 2), (2u8, 1)]);
    assert_eq!(map.state(&1u8, 2), Some(busy()));
}

#[test]
fn unsubscribe_all_removes_the_chat_under_every_key() {
    let mut map = BioauthSubscriptionMap::new();
    for key in 0u16..20 {
        map.subscribe(key, 1);
        map.subscribe(key, 2);
    }
    map.subscribe(20u16, 1);
    map.unsubscribe_all(1);
    let mut pairings = map.pairings();
    pairings.sort();
    assert_eq!(pairings, (0u16..20).map(|key| (key, 2)).collect::<Vec<_>>());
    assert_eq!(map.get(&20u16).map(|chats| chats.len()), Some(0));
}

#[test]
fn pairings_lists_every_pairing_once() {
    let mut map = BioauthSubscriptionMap::new();
    let mut expected = vec![];
    for key in 0u32..30 {
        for chat in 0..(key as i64 % 4) {
            map.subscribe(key, chat);
            map.subscribe(key, chat);
            expected.push((key, chat));
        }
    }
    let mut pairings = map.pairings();
    pairings.sort();
    assert_eq!(pairings, expected);
}

#[test]
fn keys_of_lists_every_key_once() {
    let mut map: HashMap<i64, &str> = HashMap::new();
    assert_eq!(keys_of(&map), vec![]);
    for key in -50i64..50 {
        map.insert(key, "x");
    }
    map.insert(3, "y");
    let mut keys = keys_of(&map);
    keys.sort();
    assert_eq!(keys, (-50i64..50).collect::<Vec<_>>());
}
