//! The subscription registry: which chats watch which validator keys, and
//! the notification timing state of every such pairing.

use crate::bioauth_logic::ChatId;
use crate::hash_keys::{key_order, keys_of};
use std::collections::HashMap;
use std::hash::Hash;
use vstd::prelude::*;
use vstd::std_specs::hash::obeys_key_model;

verus! {

/// Timing state of one (validator key, chat) pairing.
#[derive(Debug, Clone, Copy, PartialEq, Eq)]
pub struct BioauthNotificationState {
    /// Block of the last "lost" notification; 0 when there was none.
    pub last_block_number_notified: u32,
    /// First block at which the next "lost" notification may go out; 0 when
    /// no throttle is in effect.
    pub next_block_number_to_notify: u32,
    /// Time of the last alert, in seconds since the epoch.
    pub alerted_at: Option<u64>,
}

/// The state of a pairing that was never notified nor alerted.
pub open spec fn fresh_state() -> BioauthNotificationState {
    BioauthNotificationState {
        last_block_number_notified: 0,
        next_block_number_to_notify: 0,
        alerted_at: None,
    }
}

impl Default for BioauthNotificationState {
    fn default() -> (r: Self)
        ensures
            r == fresh_state(),
    {
        BioauthNotificationState {
            last_block_number_notified: 0,
            next_block_number_to_notify: 0,
            alerted_at: None,
        }
    }
}

/// The registry as a mathematical map: validator key, then chat, to state.
pub type Subscriptions<Key> = Map<Key, Map<ChatId, BioauthNotificationState>>;

/// Whether `chat_id` is subscribed to `key`.
pub open spec fn has_pairing<Key>(subs: Subscriptions<Key>, key: Key, chat_id: ChatId) -> bool {
    subs.contains_key(key) && subs[key].contains_key(chat_id)
}

/// `subs` after `chat_id` subscribed to `key`: an existing pairing keeps its
/// state, a new one starts fresh.
pub open spec fn subscribed<Key>(subs: Subscriptions<Key>, key: Key, chat_id: ChatId) -> Subscriptions<
    Key,
> {
    if has_pairing(subs, key, chat_id) {
        subs
    } else if subs.contains_key(key) {
        subs.insert(key, subs[key].insert(chat_id, fresh_state()))
    } else {
        subs.insert(key, Map::empty().insert(chat_id, fresh_state()))
    }
}

/// `subs` after `chat_id` unsubscribed from `key`. The key stays known.
pub open spec fn unsubscribed<Key>(subs: Subscriptions<Key>, key: Key, chat_id: ChatId) -> Subscriptions<
    Key,
> {
    if subs.contains_key(key) {
        subs.insert(key, subs[key].remove(chat_id))
    } else {
        subs
    }
}

/// `subs` after `chat_id` unsubscribed from every key. The keys stay known.
pub open spec fn unsubscribed_all<Key>(subs: Subscriptions<Key>, chat_id: ChatId) -> Subscriptions<
    Key,
> {
    subs.map_values(|chats: Map<ChatId, BioauthNotificationState>| chats.remove(chat_id))
}

/// `subs` with the state of an existing pairing replaced.
pub open spec fn with_state<Key>(
    subs: Subscriptions<Key>,
    key: Key,
    chat_id: ChatId,
    state: BioauthNotificationState,
) -> Subscriptions<Key> {
    if has_pairing(subs, key, chat_id) {
        subs.insert(key, subs[key].insert(chat_id, state))
    } else {
        subs
    }
}

/// The pairings of the keys in `keys`, key by key, the chats of each key in
/// the order in which its map hands them out.
pub open spec fn pairings_along<Key>(
    chats_by_key: Map<Key, HashMap<ChatId, BioauthNotificationState>>,
    keys: Seq<Key>,
) -> Seq<(Key, ChatId)>
    decreases keys.len(),
{
    if keys.len() == 0 {
        Seq::empty()
    } else {
        pairings_along(chats_by_key, keys.drop_last()) + key_order(
            &chats_by_key[keys.last()],
        ).map_values(|chat_id: ChatId| (keys.last(), chat_id))
    }
}

/// The subscription registry.
#[derive(Debug)]
pub struct BioauthSubscriptionMap<Key> {
    chats_by_key: HashMap<Key, HashMap<ChatId, BioauthNotificationState>>,
}

impl<Key> BioauthSubscriptionMap<Key> {
    /// The registry's contents.
    pub closed spec fn view(&self) -> Subscriptions<Key> {
        self.chats_by_key@.map_values(|chats: HashMap<ChatId, BioauthNotificationState>| chats@)
    }

    /// The pairings in the order in which the registry walks them: key by
    /// key, and for each key chat by chat.
    pub closed spec fn walk(&self) -> Seq<(Key, ChatId)> {
        pairings_along(self.chats_by_key@, key_order(&self.chats_by_key))
    }

    pub fn new() -> (r: Self)
        ensures
            r@ == Subscriptions::<Key>::empty(),
    {
        let r = BioauthSubscriptionMap { chats_by_key: HashMap::new() };
        assert(r@ =~= Subscriptions::<Key>::empty());
        r
    }
}

impl<Key> Default for BioauthSubscriptionMap<Key> {
    fn default() -> (r: Self)
        ensures
            r@ == Subscriptions::<Key>::empty(),
    {
        Self::new()
    }
}

impl<Key> BioauthSubscriptionMap<Key> where Key: Copy + Hash + Eq {
    /// The chats subscribed to `key`, with their states.
    pub fn get(&self, key: &Key) -> (r: Option<&HashMap<ChatId, BioauthNotificationState>>)
        requires
            obeys_key_model::<Key>(),
        ensures
            match r {
                Some(chats) => self@.contains_key(*key) && chats@ == self@[*key],
                None => !self@.contains_key(*key),
            },
    {
        self.chats_by_key.get(key)
    }

    /// The state of a pairing, if `chat_id` is subscribed to `key`.
    pub fn state(&self, key: &Key, chat_id: ChatId) -> (r: Option<BioauthNotificationState>)
        requires
            obeys_key_model::<Key>(),
        ensures
            r == if has_pairing(self@, *key, chat_id) {
                Some(self@[*key][chat_id])
            } else {
                None
            },
    {
        match self.chats_by_key.get(key) {
            None => None,
            Some(chats) => match chats.get(&chat_id) {
                None => None,
                Some(state) => Some(*state),
            },
        }
    }

    /// Replaces the state of a pairing. Nothing changes when `chat_id` is not
    /// subscribed to `key`.
    pub fn set_state(&mut self, key: Key, chat_id: ChatId, state: BioauthNotificationState)
        requires
            obeys_key_model::<Key>(),
        ensures
            final(self)@ == with_state(old(self)@, key, chat_id, state),
    {
        match self.chats_by_key.remove(&key) {
            Some(chats) => {
                let mut chats = chats;
                if chats.contains_key(&chat_id) {
                    chats.insert(chat_id, state);
                }
                self.chats_by_key.insert(key, chats);
            },
            None => {},
        }
        assert(self@ =~~= with_state(old(self)@, key, chat_id, state));
    }

    /// Makes sure that `chat_id` is subscribed to `key`. A new pairing starts
    /// with fresh state; an existing one keeps its state.
    pub fn subscribe(&mut self, key: Key, chat_id: ChatId)
        requires
            obeys_key_model::<Key>(),
        ensures
            final(self)@ == subscribed(old(self)@, key, chat_id),
    {
        let mut chats = match self.chats_by_key.remove(&key) {
            Some(chats) => chats,
            None => HashMap::new(),
        };
        if !chats.contains_key(&chat_id) {
            chats.insert(chat_id, BioauthNotificationState::default());
        }
        self.chats_by_key.insert(key, chats);
        assert(self@ =~~= subscribed(old(self)@, key, chat_id));
    }

    /// Ends the subscription of `chat_id` to `key`, if there is one.
    pub fn unsubscribe(&mut self, key: Key, chat_id: ChatId)
        requires
            obeys_key_model::<Key>(),
        ensures
            final(self)@ == unsubscribed(old(self)@, key, chat_id),
    {
        match self.chats_by_key.remove(&key) {
            Some(chats) => {
                let mut chats = chats;
                chats.remove(&chat_id);
                self.chats_by_key.insert(key, chats);
            },
            None => {},
        }
        assert(self@ =~~= unsubscribed(old(self)@, key, chat_id));
    }

    /// Ends every subscription of `chat_id`.
    pub fn unsubscribe_all(&mut self, chat_id: ChatId)
        requires
            obeys_key_model::<Key>(),
        ensures
            final(self)@ == unsubscribed_all(old(self)@, chat_id),
    {
        let keys = keys_of(&self.chats_by_key);
        let mut i: usize = 0;
        while i < keys.len()
            invariant
                obeys_key_model::<Key>(),
                i <= keys.len(),
                keys@.no_duplicates(),
                forall|k: Key| keys@.contains(k) <==> old(self)@.contains_key(k),
                self@.dom() == old(self)@.dom(),
                forall|j: int|
                    0 <= j < i ==> self@[#[trigger] keys[j]] == old(self)@[keys[j]].remove(chat_id),
                forall|j: int| i <= j < keys.len() ==> self@[#[trigger] keys[j]] == old(self)@[keys[j]],
            decreases keys.len() - i,
        {
            let key = keys[i];
            let ghost before = self@;
            assert(keys@.contains(key));
            match self.chats_by_key.remove(&key) {
                Some(chats) => {
                    let mut chats = chats;
                    chats.remove(&chat_id);
                    self.chats_by_key.insert(key, chats);
                },
                None => {},
            }
            assert(self@ =~~= before.insert(key, before[key].remove(chat_id)));
            i = i + 1;
        }
        assert forall|k: Key| self@.contains_key(k) implies #[trigger] self@[k] == old(self)@[k].remove(
            chat_id,
        ) by {
            assert(old(self)@.contains_key(k));
            assert(keys@.contains(k));
            let j = choose|j: int| 0 <= j < keys@.len() && keys@[j] == k;
            assert(self@[keys[j]] == old(self)@[keys[j]].remove(chat_id));
        }
        assert(self@ =~~= unsubscribed_all(old(self)@, chat_id));
    }

    /// Every pairing of the registry, each once, in the order in which the
    /// registry walks them.
    pub fn pairings(&self) -> (out: Vec<(Key, ChatId)>)
        requires
            obeys_key_model::<Key>(),
        ensures
            out@ == self.walk(),
            out@.no_duplicates(),
            forall|key: Key, chat_id: ChatId|
                #![trigger out@.contains((key, chat_id))]
                #![trigger has_pairing(self@, key, chat_id)]
                out@.contains((key, chat_id)) <==> has_pairing(self@, key, chat_id),
    {
        let mut out: Vec<(Key, ChatId)> = Vec::new();
        let keys = keys_of(&self.chats_by_key);
        let mut i: usize = 0;
        assert(keys@.take(0) =~= Seq::empty());
        while i < keys.len()
            invariant
                obeys_key_model::<Key>(),
                i <= keys.len(),
                keys@ == key_order(&self.chats_by_key),
                keys@.no_duplicates(),
                forall|k: Key| keys@.contains(k) <==> self@.contains_key(k),
                out@ == pairings_along(self.chats_by_key@, keys@.take(i as int)),
                out@.no_duplicates(),
                forall|key: Key, chat_id: ChatId|
                    #![trigger out@.contains((key, chat_id))]
                    #![trigger has_pairing(self@, key, chat_id)]
                    out@.contains((key, chat_id)) <==> has_pairing(self@, key, chat_id)
                        && exists|j: int| 0 <= j < i && keys[j] == key,
            decreases keys.len() - i,
        {
            let key = keys[i];
            assert(keys@.contains(key));
            let ghost done = out@;
            let ghost mut chats_walked: Seq<ChatId> = Seq::empty();
            match self.chats_by_key.get(&key) {
                None => {},
                Some(chats) => {
                    let chat_ids = keys_of(chats);
                    proof {
                        chats_walked = chat_ids@;
                        assert forall|c: ChatId| !done.contains((key, c)) by {
                            if done.contains((key, c)) {
                                let j = choose|j: int| 0 <= j < i && keys[j] == key;
                                assert(keys@[j] == keys@[i as int]);
                            }
                        }
                    }
                    let mut n: usize = 0;
                    while n < chat_ids.len()
                        invariant
                            n <= chat_ids.len(),
                            chat_ids@.no_duplicates(),
                            done.no_duplicates(),
                            forall|c: ChatId| chat_ids@.contains(c) <==> chats@.contains_key(c),
                            forall|c: ChatId| !done.contains((key, c)),
                            out@.len() == done.len() + n,
                            forall|m: int| 0 <= m < done.len() ==> out@[m] == done[m],
                            forall|m: int|
                                0 <= m < n ==> out@[done.len() + m] == (key, chat_ids@[m]),
                        decreases chat_ids.len() - n,
                    {
                        out.push((key, chat_ids[n]));
                        n = n + 1;
                    }
                    assert(out@.no_duplicates()) by {
                        assert forall|a: int, b: int|
                            0 <= a < out@.len() && 0 <= b < out@.len() && a != b implies out@[a]
                            != out@[b] by {
                            if a < done.len() {
                                assert(done[a] == out@[a]);
                                assert(done.contains(out@[a]));
                            } else {
                                assert(out@[done.len() + (a - done.len())] == (
                                    key,
                                    chat_ids@[a - done.len()],
                                ));
                            }
                            if b < done.len() {
                                assert(done[b] == out@[b]);
                                assert(done.contains(out@[b]));
                            } else {
                                assert(out@[done.len() + (b - done.len())] == (
                                    key,
                                    chat_ids@[b - done.len()],
                                ));
                            }
                        }
                    }
                    assert forall|k: Key, c: ChatId|
                        #![trigger out@.contains((k, c))]
                        #![trigger has_pairing(self@, k, c)]
                        out@.contains((k, c)) <==> has_pairing(self@, k, c) && exists|j: int|
                            0 <= j < i + 1 && keys[j] == k by {
                        if out@.contains((k, c)) {
                            let m = choose|m: int| 0 <= m < out@.len() && out@[m] == (k, c);
                            if m < done.len() {
                                assert(done[m] == (k, c));
                                assert(done.contains((k, c)));
                            } else {
                                assert(out@[done.len() + (m - done.len())] == (
                                    key,
                                    chat_ids@[m - done.len()],
                                ));
                                assert(chat_ids@.contains(chat_ids@[m - done.len()]));
                                assert(keys[i as int] == k);
                            }
                        }
                        if has_pairing(self@, k, c) && exists|j: int|
                            0 <= j < i + 1 && keys[j] == k {
                            let j = choose|j: int| 0 <= j < i + 1 && keys[j] == k;
                            if j < i {
                                assert(done.contains((k, c)));
                                let m = choose|m: int| 0 <= m < done.len() && done[m] == (k, c);
                                assert(out@[m] == (k, c));
                            } else {
                                assert(chat_ids@.contains(c));
                                let m = choose|m: int|
                                    0 <= m < chat_ids@.len() && chat_ids@[m] == c;
                                assert(out@[done.len() + m] == (k, c));
                            }
                        }
                    }
                    assert(out@ =~= done + chat_ids@.map_values(|chat_id: ChatId| (key, chat_id)));
                },
            }
            proof {
                let longer = keys@.take(i + 1);
                assert(longer.drop_last() =~= keys@.take(i as int));
                assert(longer.last() == key);
                assert(chats_walked == key_order(&self.chats_by_key@[key]));
            }
            i = i + 1;
        }
        assert(keys@.take(i as int) =~= keys@);
        assert forall|key: Key, chat_id: ChatId| has_pairing(self@, key, chat_id) implies out@.contains(
            (key, chat_id),
        ) by {
            assert(keys@.contains(key));
        }
        out
    }
}

/// Unsubscribing removes the state. After a chat unsubscribed from a key the
/// pairing is gone, and subscribing again gives it fresh state, whatever the
/// state was before.
pub proof fn unsubscribe_forgets_state<Key>(subs: Subscriptions<Key>, key: Key, chat_id: ChatId)
    ensures
        !has_pairing(unsubscribed(subs, key, chat_id), key, chat_id),
        has_pairing(subscribed(unsubscribed(subs, key, chat_id), key, chat_id), key, chat_id),
        subscribed(unsubscribed(subs, key, chat_id), key, chat_id)[key][chat_id] == fresh_state(),
{
}

/// Subscribing again changes nothing: a pairing that exists keeps its state.
pub proof fn subscribe_keeps_state<Key>(subs: Subscriptions<Key>, key: Key, chat_id: ChatId)
    requires
        has_pairing(subs, key, chat_id),
    ensures
        subscribed(subs, key, chat_id) == subs,
{
}

} // verus!
