use biostatus::dev_subscriptions::{DevSubscriptionMap, DevSubscriptions};
use std::collections::HashSet;

#[test]
fn dev_subscription_defaults_to_nothing() {
    assert_eq!(DevSubscriptions::default(), DevSubscriptions { affected_validator: false });
    let map = DevSubscriptionMap::new();
    assert_eq!(map.get(&5), DevSubscriptions { affected_validator: false });
    assert_eq!(DevSubscriptionMap::default().get_all_enabled_team_notification_subscribers(), HashSet::new());
}

#[test]
fn dev_subscription_update_and_remove() {
    let mut map = DevSubscriptionMap::new();
    map.update(5, DevSubscriptions { affected_validator: true });
    assert_eq!(map.get(&5), DevSubscriptions { affected_validator: true });
    assert_eq!(map.get(&6), DevSubscriptions { affected_validator: false });
    map.update(5, DevSubscriptions { affected_validator: false });
    assert_eq!(map.get(&5), DevSubscriptions { affected_validator: false });
    map.update(5, DevSubscriptions { affected_validator: true });
    map.remove(&5);
    map.remove(&7);
    assert_eq!(map.get(&5), DevSubscriptions { affected_validator: false });
}

#[test]
fn enabled_subscribers_are_those_that_switched_it_on() {
    let mut map = DevSubscriptionMap::new();
    for chat in 0..40 {
        map.update(chat, DevSubscriptions { affected_validator: chat % 3 == 0 });
    }
    map.update(3, DevSubscriptions { affected_validator: false });
    map.remove(&6);
    let expected: HashSet<i64> = (0..40).filter(|chat| chat % 3 == 0 && *chat != 3 && *chat != 6).collect();
    assert_eq!(map.get_all_enabled_team_notification_subscribers(), expected);
}
