//! The plain watcher: on each block, the chats whose validator has no active
//! authentication.

pub mod state;

use crate::logic::state::{watchers, ChatId, State, ValidatorsSubscriptionMap};
use std::collections::HashMap;
use std::hash::Hash;
use vstd::prelude::*;
use vstd::std_specs::hash::obeys_key_model;
use vstd::std_specs::iter::IteratorSpec;

verus! {

/// The watcher.
#[derive(Debug)]
pub struct Logic<ValidatorPublicKey> {
    pub state: State<ValidatorPublicKey>,
}

/// One persisted subscription.
#[derive(Debug)]
pub struct InitParamValidator<ValidatorPublicKey> {
    pub validator_public_key: ValidatorPublicKey,
    pub t_chat_id: ChatId,
}

/// The persisted subscriptions that the watcher starts from.
#[derive(Debug)]
pub struct InitParams<ValidatorPublicKey> {
    pub validators: Vec<InitParamValidator<ValidatorPublicKey>>,
}

/// One finalized block, as the watcher sees it.
#[derive(Debug)]
pub struct NewBlockParams<ValidatorPublicKey> {
    pub block_number: u32,
    /// Expiry timestamp of every key with an active authentication.
    pub active_authentications_map: HashMap<ValidatorPublicKey, u64>,
}

/// A subscription change: the chat, and the key that it watches from now on.
#[derive(Debug)]
pub struct UpdateSubscriptionParams<ValidatorPublicKey> {
    pub t_chat_id: ChatId,
    pub validator_public_key: Option<ValidatorPublicKey>,
}

/// The chats that the seed lists for `key`, in the seed's order.
pub open spec fn seeded_watchers<Key>(
    validators: Seq<InitParamValidator<Key>>,
    key: Key,
) -> Seq<ChatId>
    decreases validators.len(),
{
    if validators.len() == 0 {
        Seq::empty()
    } else if validators.last().validator_public_key == key {
        seeded_watchers(validators.drop_last(), key).push(validators.last().t_chat_id)
    } else {
        seeded_watchers(validators.drop_last(), key)
    }
}

/// The subscriptions that a seed gives.
pub open spec fn seeded<Key>(validators: Seq<InitParamValidator<Key>>) -> Map<Key, Seq<ChatId>> {
    Map::new(
        |key: Key| seeded_watchers(validators, key).len() > 0,
        |key: Key| seeded_watchers(validators, key),
    )
}

/// Whether `order` names every known key once.
pub open spec fn walks<Key>(subs: Map<Key, Seq<ChatId>>, order: Seq<Key>) -> bool {
    &&& order.no_duplicates()
    &&& forall|key: Key| order.contains(key) <==> subs.contains_key(key)
}

/// The chats of the keys in `order` that have no active authentication: key
/// by key, and for each key in the order in which its chats are listed.
pub open spec fn lapsed_chats<Key>(
    subs: Map<Key, Seq<ChatId>>,
    active: Map<Key, u64>,
    order: Seq<Key>,
) -> Seq<ChatId>
    decreases order.len(),
{
    if order.len() == 0 {
        Seq::empty()
    } else {
        lapsed_chats(subs, active, order.drop_last()) + if active.contains_key(order.last()) {
            Seq::empty()
        } else {
            watchers(subs, order.last())
        }
    }
}

impl<ValidatorPublicKey> Logic<ValidatorPublicKey> {
    /// The chats listed for every known key.
    pub open spec fn view(&self) -> Map<ValidatorPublicKey, Seq<ChatId>> {
        self.state.validators_subscription_map@
    }
}

impl<ValidatorPublicKey> Logic<ValidatorPublicKey> where ValidatorPublicKey: Eq + Hash {
    /// Builds the watcher from the persisted subscriptions.
    pub fn init(params: InitParams<ValidatorPublicKey>) -> (logic: Self)
        requires
            obeys_key_model::<ValidatorPublicKey>(),
        ensures
            logic@ == seeded(params.validators@),
    {
        let mut validators_subscription_map = ValidatorsSubscriptionMap::new();
        let ghost all = params.validators@;
        let mut done: Ghost<int> = Ghost(0);
        assert(validators_subscription_map@ =~= seeded(all.take(0)));
        for validator in it: params.validators
            invariant
                obeys_key_model::<ValidatorPublicKey>(),
                it.seq() == all,
                done@ == it.index(),
                validators_subscription_map@ == seeded(all.take(it.index())),
        {
            proof {
                lemma_seeded_step(all, done@);
                done@ = done@ + 1;
            }
            validators_subscription_map.subscribe(
                validator.validator_public_key,
                validator.t_chat_id,
            );
        }
        assert(all.take(all.len() as int) =~= all);
        let state = State { validators_subscription_map };
        Logic { state }
    }

    /// The chats to notify on this block: those of every key that has no
    /// active authentication. Nothing is promised of the order of the keys.
    pub fn new_block(&mut self, params: NewBlockParams<ValidatorPublicKey>) -> (chats_to_notify:
        Vec<ChatId>)
        requires
            obeys_key_model::<ValidatorPublicKey>(),
        ensures
            final(self)@ == old(self)@,
            exists|order: Seq<ValidatorPublicKey>|
                walks(old(self)@, order) && chats_to_notify@ == lapsed_chats(
                    old(self)@,
                    params.active_authentications_map@,
                    order,
                ),
    {
        let NewBlockParams { block_number: _, active_authentications_map } = params;
        let mut chats_to_notify: Vec<ChatId> = Vec::new();
        let entries = self.state.validators_subscription_map.iter();
        let ghost all = entries.remaining();
        let ghost order = Seq::new(all.len(), |i: int| *all[i].0);
        let ghost subs = self@;
        let ghost active = active_authentications_map@;
        proof {
            assert(order.no_duplicates()) by {
                assert forall|i: int, j: int|
                    0 <= i < order.len() && 0 <= j < order.len() && i != j implies order[i]
                    != order[j] by {
                    if i < j {
                        assert(*all[i].0 != *all[j].0);
                    } else {
                        assert(*all[j].0 != *all[i].0);
                    }
                }
            }
            assert forall|key: ValidatorPublicKey| order.contains(key) <==> subs.contains_key(
                key,
            ) by {
                if order.contains(key) {
                    let i = choose|i: int| 0 <= i < order.len() && order[i] == key;
                    assert(subs.contains_key(*all[i].0));
                }
                if subs.contains_key(key) {
                    let i = choose|i: int| 0 <= i < all.len() && *(#[trigger] all[i]).0 == key;
                    assert(order[i] == key);
                }
            }
            assert(order.take(0) =~= Seq::empty());
        }
        for entry in it: entries
            invariant
                obeys_key_model::<ValidatorPublicKey>(),
                it.seq() == all,
                order == Seq::new(all.len(), |i: int| *all[i].0),
                active == active_authentications_map@,
                forall|i: int|
                    0 <= i < all.len() ==> subs.contains_key(*(#[trigger] all[i]).0)
                        && subs[*all[i].0] == all[i].1@,
                chats_to_notify@ == lapsed_chats(subs, active, order.take(it.index())),
        {
            let (validator_public_key, t_chat_ids) = entry;
            proof {
                assert(order.take(it.index() + 1).drop_last() =~= order.take(it.index()));
                assert(order.take(it.index() + 1).last() == *validator_public_key);
                assert(subs[*validator_public_key] == t_chat_ids@);
            }
            let active_authentication = active_authentications_map.get(validator_public_key);
            match active_authentication {
                None => {
                    let ghost before = chats_to_notify@;
                    let mut n: usize = 0;
                    while n < t_chat_ids.len()
                        invariant
                            n <= t_chat_ids.len(),
                            chats_to_notify@ == before + t_chat_ids@.take(n as int),
                        decreases t_chat_ids.len() - n,
                    {
                        chats_to_notify.push(t_chat_ids[n]);
                        assert(t_chat_ids@.take(n + 1) =~= t_chat_ids@.take(n as int).push(
                            t_chat_ids@[n as int],
                        ));
                        assert(chats_to_notify@ =~= before + t_chat_ids@.take(n + 1));
                        n = n + 1;
                    }
                    assert(t_chat_ids@.take(n as int) =~= t_chat_ids@);
                },
                Some(_) => {
                    assert(chats_to_notify@ + Seq::<ChatId>::empty() =~= chats_to_notify@);
                },
            }
        }
        assert(order.take(all.len() as int) =~= order);
        proof {
            assert(walks(subs, order));
        }
        chats_to_notify
    }

    /// Subscribes the chat to the key that the change names.
    pub fn update_subscription(&mut self, params: UpdateSubscriptionParams<ValidatorPublicKey>)
        requires
            obeys_key_model::<ValidatorPublicKey>(),
            params.validator_public_key is Some,
        ensures
            final(self)@ == old(self)@.insert(
                params.validator_public_key->0,
                watchers(old(self)@, params.validator_public_key->0).push(params.t_chat_id),
            ),
    {
        let UpdateSubscriptionParams { t_chat_id, validator_public_key } = params;
        match validator_public_key {
            Some(key) => self.state.validators_subscription_map.subscribe(key, t_chat_id),
            None => {},
        };
    }
}

/// Seeding with one more subscription lists its chat last for its key.
proof fn lemma_seeded_step<Key>(validators: Seq<InitParamValidator<Key>>, i: int)
    requires
        0 <= i < validators.len(),
    ensures
        seeded(validators.take(i + 1)) == seeded(validators.take(i)).insert(
            validators[i].validator_public_key,
            watchers(seeded(validators.take(i)), validators[i].validator_public_key).push(
                validators[i].t_chat_id,
            ),
        ),
{
    let shorter = validators.take(i);
    let longer = validators.take(i + 1);
    let added = validators[i];
    let lhs = seeded(longer);
    let rhs = seeded(shorter).insert(
        added.validator_public_key,
        watchers(seeded(shorter), added.validator_public_key).push(added.t_chat_id),
    );
    assert(longer.drop_last() =~= shorter);
    assert(longer.last() == added);
    assert forall|key: Key| #[trigger]
        seeded_watchers(longer, key) == if key == added.validator_public_key {
            seeded_watchers(shorter, key).push(added.t_chat_id)
        } else {
            seeded_watchers(shorter, key)
        } by {}
    assert forall|key: Key| lhs.contains_key(key) <==> rhs.contains_key(key) by {
        assert(seeded_watchers(longer, key).len() >= seeded_watchers(shorter, key).len());
    }
    assert forall|key: Key| lhs.contains_key(key) implies lhs[key] == rhs[key] by {
        assert(seeded_watchers(longer, key).len() >= seeded_watchers(shorter, key).len());
        if key == added.validator_public_key && !seeded(shorter).contains_key(key) {
            assert(seeded_watchers(shorter, key) =~= Seq::empty());
        }
    }
    assert(lhs =~= rhs);
}

} // verus!
