//! Which chats watch which validator keys.

use std::collections::hash_map::Iter;
use std::collections::HashMap;
use std::hash::Hash;
use vstd::prelude::*;
use vstd::std_specs::hash::obeys_key_model;
use vstd::std_specs::iter::IteratorSpec;

verus! {

/// Identifier of a destination chat.
pub type ChatId = i64;

/// The chats that watch each validator key, in the order in which they
/// subscribed. A chat that subscribed twice is listed twice.
#[derive(Debug)]
pub struct ValidatorsSubscriptionMap<ValidatorPublicKey> {
    chats_by_key: HashMap<ValidatorPublicKey, Vec<ChatId>>,
}

/// All that the watcher keeps between blocks.
#[derive(Debug)]
pub struct State<ValidatorPublicKey> {
    pub validators_subscription_map: ValidatorsSubscriptionMap<ValidatorPublicKey>,
}

/// The chats listed for `key`; none when the key is unknown.
pub open spec fn watchers<Key>(subs: Map<Key, Seq<ChatId>>, key: Key) -> Seq<ChatId> {
    if subs.contains_key(key) {
        subs[key]
    } else {
        Seq::empty()
    }
}

impl<ValidatorPublicKey> ValidatorsSubscriptionMap<ValidatorPublicKey> {
    /// The listed chats of every known key.
    pub closed spec fn view(&self) -> Map<ValidatorPublicKey, Seq<ChatId>> {
        self.chats_by_key@.map_values(|chat_ids: Vec<ChatId>| chat_ids@)
    }

    pub fn new() -> (r: Self)
        ensures
            r@ == Map::<ValidatorPublicKey, Seq<ChatId>>::empty(),
    {
        let r = ValidatorsSubscriptionMap { chats_by_key: HashMap::new() };
        assert(r@ =~= Map::<ValidatorPublicKey, Seq<ChatId>>::empty());
        r
    }
}

impl<ValidatorPublicKey> Default for ValidatorsSubscriptionMap<ValidatorPublicKey> {
    fn default() -> (r: Self)
        ensures
            r@ == Map::<ValidatorPublicKey, Seq<ChatId>>::empty(),
    {
        Self::new()
    }
}

impl<ValidatorPublicKey> ValidatorsSubscriptionMap<ValidatorPublicKey> where
    ValidatorPublicKey: Hash + Eq,
 {
    /// The chats that watch `key`.
    pub fn get(&self, key: &ValidatorPublicKey) -> (chat_ids: &[ChatId])
        requires
            obeys_key_model::<ValidatorPublicKey>(),
        ensures
            chat_ids@ == watchers(self@, *key),
    {
        let chat_ids = self.chats_by_key.get(key);
        match chat_ids {
            Some(chat_ids) => chat_ids.as_slice(),
            None => &[],
        }
    }

    /// Lists `chat_id` for `key`, after the chats that are listed already.
    pub fn subscribe(&mut self, key: ValidatorPublicKey, chat_id: ChatId)
        requires
            obeys_key_model::<ValidatorPublicKey>(),
        ensures
            final(self)@ == old(self)@.insert(key, watchers(old(self)@, key).push(chat_id)),
    {
        let mut chat_ids = match self.chats_by_key.remove(&key) {
            Some(chat_ids) => chat_ids,
            None => Vec::new(),
        };
        chat_ids.push(chat_id);
        self.chats_by_key.insert(key, chat_ids);
        assert(self@ =~= old(self)@.insert(key, watchers(old(self)@, key).push(chat_id)));
    }

    /// Walks the known keys, each once, with the chats listed for it.
    pub fn iter(&self) -> (entries: Iter<'_, ValidatorPublicKey, Vec<ChatId>>)
        requires
            obeys_key_model::<ValidatorPublicKey>(),
        ensures
            entries.remaining().len() == self@.dom().len(),
            forall|i: int, j: int|
                0 <= i < j < entries.remaining().len() ==> *(#[trigger] entries.remaining()[i]).0
                    != *(#[trigger] entries.remaining()[j]).0,
            forall|i: int|
                0 <= i < entries.remaining().len() ==> self@.contains_key(
                    *(#[trigger] entries.remaining()[i]).0,
                ) && self@[*entries.remaining()[i].0] == entries.remaining()[i].1@,
            forall|key: ValidatorPublicKey|
                self@.contains_key(key) ==> exists|i: int|
                    0 <= i < entries.remaining().len() && *(#[trigger] entries.remaining()[i]).0
                        == key,
            IteratorSpec::decrease(&entries) is Some,
            IteratorSpec::initial_value_relation(&entries, &entries),
    {
        let entries = self.chats_by_key.iter();
        proof {
            let rem = entries.remaining();
            assert(self@.dom() =~= self.chats_by_key@.dom());
            assert forall|i: int, j: int| 0 <= i < j < rem.len() implies *(#[trigger] rem[i]).0 != *(
            #[trigger] rem[j]).0 by {
                if *rem[i].0 == *rem[j].0 {
                    assert(self.chats_by_key@[*rem[i].0] == *rem[i].1);
                    assert(self.chats_by_key@[*rem[j].0] == *rem[j].1);
                    assert(rem[i] == rem[j]);
                }
            }
            assert forall|key: ValidatorPublicKey| self@.contains_key(key) implies exists|i: int|
                0 <= i < rem.len() && *(#[trigger] rem[i]).0 == key by {
                assert(rem.contains((&key, &self.chats_by_key@[key])));
                let i = choose|i: int| 0 <= i < rem.len() && rem[i] == (&key, &self.chats_by_key@[key]);
                assert(*rem[i].0 == key);
            }
        }
        entries
    }
}

} // verus!
