//! Per-pairing throttling and alert settings, defaulted when absent.

use std::collections::{HashMap, HashSet};
use std::hash::Hash;
use vstd::prelude::*;
use vstd::std_specs::hash::obeys_key_model;
use vstd::std_specs::iter::IteratorSpec;

verus! {

/// Settings of one (chat, validator key) pairing.
#[derive(Debug, Clone, Copy, PartialEq, Eq)]
pub struct BioauthSettings {
    /// Least number of blocks between two "lost" notifications.
    pub max_message_frequency_in_blocks: u32,
    /// How long before the expiry the alert is due.
    pub alert_before_expiration_in_mins: u64,
}

/// The settings of a pairing that has none stored.
pub open spec fn default_settings() -> BioauthSettings {
    BioauthSettings { max_message_frequency_in_blocks: 10, alert_before_expiration_in_mins: 60 }
}

impl Default for BioauthSettings {
    fn default() -> (r: Self)
        ensures
            r == default_settings(),
    {
        BioauthSettings { alert_before_expiration_in_mins: 60, max_message_frequency_in_blocks: 10 }
    }
}

/// What a lookup of `key` in the stored records `m` resolves to.
pub open spec fn settings_of<Key>(
    m: Map<(i64, Key), BioauthSettings>,
    key: (i64, Key),
) -> BioauthSettings {
    if m.contains_key(key) {
        m[key]
    } else {
        default_settings()
    }
}

/// The stored records of `m` without those of chat `by_id`.
pub open spec fn without_chat<Key>(m: Map<(i64, Key), BioauthSettings>, by_id: i64) -> Map<
    (i64, Key),
    BioauthSettings,
> {
    Map::new(|p: (i64, Key)| m.contains_key(p) && p.0 != by_id, |p: (i64, Key)| m[p])
}

/// Settings store, keyed by (chat id, validator key).
#[derive(Debug, Clone)]
pub struct BioauthSettingsMap<Key> {
    by_chat: HashMap<i64, HashMap<Key, BioauthSettings>>,
}

impl<Key> BioauthSettingsMap<Key> {
    /// The stored records.
    pub closed spec fn view(&self) -> Map<(i64, Key), BioauthSettings> {
        Map::new(
            |p: (i64, Key)| self.by_chat@.contains_key(p.0) && self.by_chat@[p.0]@.contains_key(p.1),
            |p: (i64, Key)| self.by_chat@[p.0]@[p.1],
        )
    }

    pub fn new() -> (r: Self)
        ensures
            r@ == Map::<(i64, Key), BioauthSettings>::empty(),
    {
        let r = BioauthSettingsMap { by_chat: HashMap::new() };
        assert(r@ =~= Map::<(i64, Key), BioauthSettings>::empty());
        r
    }
}

impl<Key> Default for BioauthSettingsMap<Key> {
    fn default() -> (r: Self)
        ensures
            r@ == Map::<(i64, Key), BioauthSettings>::empty(),
    {
        Self::new()
    }
}

impl<Key> BioauthSettingsMap<Key> where Key: Copy + Hash + Eq {
    /// The settings of a pairing: the stored record, or the default.
    pub fn get(&self, key: &(i64, Key)) -> (r: BioauthSettings)
        requires
            obeys_key_model::<Key>(),
        ensures
            r == settings_of(self@, *key),
    {
        match self.by_chat.get(&key.0) {
            None => BioauthSettings::default(),
            Some(inner) => match inner.get(&key.1) {
                None => BioauthSettings::default(),
                Some(val) => *val,
            },
        }
    }

    /// Replaces or inserts the whole record of a pairing.
    pub fn update(&mut self, key: (i64, Key), settings: BioauthSettings)
        requires
            obeys_key_model::<Key>(),
        ensures
            final(self)@ == old(self)@.insert(key, settings),
    {
        let (chat_id, validator) = key;
        let mut inner = match self.by_chat.remove(&chat_id) {
            Some(inner) => inner,
            None => HashMap::new(),
        };
        inner.insert(validator, settings);
        self.by_chat.insert(chat_id, inner);
        assert(self@ =~= old(self)@.insert(key, settings));
    }

    /// Deletes the record of a pairing, if there is one.
    pub fn remove(&mut self, key: &(i64, Key))
        requires
            obeys_key_model::<Key>(),
        ensures
            final(self)@ == old(self)@.remove(*key),
    {
        match self.by_chat.remove(&key.0) {
            Some(inner) => {
                let mut inner = inner;
                inner.remove(&key.1);
                self.by_chat.insert(key.0, inner);
            },
            None => {},
        }
        assert(self@ =~= old(self)@.remove(*key));
    }

    /// Deletes every record of a chat.
    pub fn remove_all_by_id(&mut self, by_id: i64)
        requires
            obeys_key_model::<Key>(),
        ensures
            final(self)@ == without_chat(old(self)@, by_id),
    {
        self.by_chat.remove(&by_id);
        assert(self@ =~= without_chat(old(self)@, by_id));
    }

    /// The validator keys that chat `by_id` has a record for.
    pub fn get_all_subscriptions_by_id(&self, by_id: i64) -> (subscriptions: HashSet<Key>)
        requires
            obeys_key_model::<Key>(),
        ensures
            forall|k: Key| subscriptions@.contains(k) <==> self@.contains_key((by_id, k)),
    {
        let mut subscriptions: HashSet<Key> = HashSet::new();
        match self.by_chat.get(&by_id) {
            None => {},
            Some(inner) => {
                let ghost keys = inner.keys().remaining();
                for key in it: inner.keys()
                    invariant
                        obeys_key_model::<Key>(),
                        it.seq() == keys,
                        forall|k: Key|
                            subscriptions@.contains(k) <==> exists|j: int|
                                0 <= j < it.index() && *#[trigger] keys[j] == k,
                {
                    subscriptions.insert(*key);
                }
                assert forall|k: Key| subscriptions@.contains(k) <==> inner@.contains_key(
                    k,
                ) by {
                    if subscriptions@.contains(k) {
                        let j = choose|j: int| 0 <= j < keys.len() && *#[trigger] keys[j] == k;
                        assert(keys.unref()[j] == k);
                    }
                    if inner@.contains_key(k) {
                        assert(keys.unref().to_set().contains(k));
                        let j = choose|j: int| 0 <= j < keys.len() && keys.unref()[j] == k;
                        assert(*keys[j] == k);
                    }
                }
            },
        }
        subscriptions
    }

    /// Sets the alert lead time of a pairing; a pairing without a record gets
    /// the default for the other field.
    pub fn update_alert_before_expiration_in_mins(
        &mut self,
        key: (i64, Key),
        alert_before_expiration_in_mins: u64,
    )
        requires
            obeys_key_model::<Key>(),
        ensures
            final(self)@ == old(self)@.insert(
                key,
                BioauthSettings {
                    alert_before_expiration_in_mins,
                    ..settings_of(old(self)@, key)
                },
            ),
    {
        let current = self.get(&key);
        self.update(
            key,
            BioauthSettings {
                alert_before_expiration_in_mins,
                max_message_frequency_in_blocks: current.max_message_frequency_in_blocks,
            },
        );
    }

    /// Sets the throttle window of a pairing; a pairing without a record gets
    /// the default for the other field.
    pub fn update_max_message_frequency_in_blocks(
        &mut self,
        key: (i64, Key),
        max_message_frequency_in_blocks: u32,
    )
        requires
            obeys_key_model::<Key>(),
        ensures
            final(self)@ == old(self)@.insert(
                key,
                BioauthSettings {
                    max_message_frequency_in_blocks,
                    ..settings_of(old(self)@, key)
                },
            ),
    {
        let current = self.get(&key);
        self.update(
            key,
            BioauthSettings {
                max_message_frequency_in_blocks,
                alert_before_expiration_in_mins: current.alert_before_expiration_in_mins,
            },
        );
    }
}

} // verus!
