//! Which chats take notifications from the team.

use crate::hash_keys::keys_of;
use std::collections::{HashMap, HashSet};
use vstd::prelude::*;

verus! {

/// What a chat has chosen to hear from the team.
#[derive(Debug, Clone, Copy, PartialEq, Eq)]
pub struct DevSubscriptions {
    /// Notices of network changes that may affect a validator.
    pub affected_validator: bool,
}

/// The choice of a chat that has made none: nothing.
pub open spec fn default_dev_subscriptions() -> DevSubscriptions {
    DevSubscriptions { affected_validator: false }
}

impl Default for DevSubscriptions {
    fn default() -> (r: Self)
        ensures
            r == default_dev_subscriptions(),
    {
        DevSubscriptions { affected_validator: false }
    }
}

/// The choices of all chats, by chat id.
#[derive(Debug, Clone)]
pub struct DevSubscriptionMap {
    by_chat: HashMap<i64, DevSubscriptions>,
}

impl Default for DevSubscriptionMap {
    fn default() -> (r: Self)
        ensures
            r@ == Map::<i64, DevSubscriptions>::empty(),
    {
        DevSubscriptionMap { by_chat: HashMap::new() }
    }
}

impl DevSubscriptionMap {
    /// The stored choices.
    pub closed spec fn view(&self) -> Map<i64, DevSubscriptions> {
        self.by_chat@
    }

    pub fn new() -> (r: Self)
        ensures
            r@ == Map::<i64, DevSubscriptions>::empty(),
    {
        DevSubscriptionMap { by_chat: HashMap::new() }
    }

    /// The choice of a chat: the stored one, or the default.
    pub fn get(&self, key: &i64) -> (r: DevSubscriptions)
        ensures
            r == if self@.contains_key(*key) {
                self@[*key]
            } else {
                default_dev_subscriptions()
            },
    {
        match self.by_chat.get(key) {
            None => DevSubscriptions::default(),
            Some(val) => *val,
        }
    }

    /// The chats that take notices of network changes.
    pub fn get_all_enabled_team_notification_subscribers(&self) -> (subscribers: HashSet<i64>)
        ensures
            forall|id: i64|
                subscribers@.contains(id) <==> self@.contains_key(id)
                    && self@[id].affected_validator,
    {
        let mut subscribers: HashSet<i64> = HashSet::new();
        let ids = keys_of(&self.by_chat);
        let mut i: usize = 0;
        while i < ids.len()
            invariant
                i <= ids.len(),
                forall|id: i64| ids@.contains(id) <==> self@.contains_key(id),
                forall|id: i64|
                    subscribers@.contains(id) <==> self@.contains_key(id)
                        && self@[id].affected_validator && exists|j: int|
                        0 <= j < i && ids[j] == id,
            decreases ids.len() - i,
        {
            let id = ids[i];
            assert(ids@.contains(id));
            if self.get(&id).affected_validator {
                subscribers.insert(id);
            }
            i = i + 1;
        }
        assert forall|id: i64|
            self@.contains_key(id) && self@[id].affected_validator implies subscribers@.contains(
            id,
        ) by {
            assert(ids@.contains(id));
        }
        subscribers
    }

    /// Stores the choice of a chat.
    pub fn update(&mut self, key: i64, settings: DevSubscriptions)
        ensures
            final(self)@ == old(self)@.insert(key, settings),
    {
        self.by_chat.insert(key, settings);
    }

    /// Forgets the choice of a chat.
    pub fn remove(&mut self, key: &i64)
        ensures
            final(self)@ == old(self)@.remove(*key),
    {
        self.by_chat.remove(key);
    }
}

} // verus!
