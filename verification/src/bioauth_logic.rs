//! The notification engine: what to tell which chat on each new block.

pub mod bioauth_subscription_map;
pub mod evaluation;

use crate::bioauth_logic::bioauth_subscription_map::{
    fresh_state, has_pairing, subscribed, unsubscribed, unsubscribed_all, with_state,
    BioauthNotificationState, BioauthSubscriptionMap, Subscriptions,
};
use crate::bioauth_logic::evaluation::{
    can_evaluate, evaluable, evaluate, next_state, notification_for,
};
use crate::bioauth_settings::{settings_of, BioauthSettings, BioauthSettingsMap};
use crate::clock::unix_time_secs;
use std::collections::{HashMap, HashSet};
use std::hash::Hash;
use vstd::prelude::*;
use vstd::std_specs::hash::obeys_key_model;

verus! {

/// Identifier of a destination chat.
pub type ChatId = i64;

/// A delivery that failed, as the transport reports it: by chat, not by
/// pairing.
#[derive(Debug, Clone, Copy, PartialEq, Eq)]
pub enum FailedNotification {
    BioauthLostNotificationFailed { chat_id: i64 },
    BioauthSoonExpiredAlertFailed { chat_id: i64 },
}

/// What the engine asks the transport to deliver.
#[derive(Debug, Clone, Copy, PartialEq, Eq)]
pub enum Notification<BioauthPublicKey> {
    /// The key has no active authentication.
    BioauthLostNotification { chat_id: i64, bioauth_public_key: BioauthPublicKey },
    /// The key's authentication expires within the lead time.
    BioauthSoonExpiredAlert { chat_id: i64, bioauth_public_key: BioauthPublicKey },
}

impl<BioauthPublicKey> Notification<BioauthPublicKey> {
    /// The chat that the notification goes to.
    pub open spec fn chat(self) -> ChatId {
        match self {
            Notification::BioauthLostNotification { chat_id, .. } => chat_id,
            Notification::BioauthSoonExpiredAlert { chat_id, .. } => chat_id,
        }
    }

    /// The validator key that the notification is about.
    pub open spec fn key(self) -> BioauthPublicKey {
        match self {
            Notification::BioauthLostNotification { bioauth_public_key, .. } => bioauth_public_key,
            Notification::BioauthSoonExpiredAlert { bioauth_public_key, .. } => bioauth_public_key,
        }
    }

    /// The failure to report when the notification could not be delivered:
    /// by chat and kind, not by pairing.
    pub open spec fn failure(self) -> FailedNotification {
        match self {
            Notification::BioauthLostNotification { chat_id, .. } => {
                FailedNotification::BioauthLostNotificationFailed { chat_id }
            },
            Notification::BioauthSoonExpiredAlert { chat_id, .. } => {
                FailedNotification::BioauthSoonExpiredAlertFailed { chat_id }
            },
        }
    }

    /// The failure to report when the notification could not be delivered.
    pub fn failed(&self) -> (failure: FailedNotification)
        ensures
            failure == self.failure(),
    {
        match self {
            Notification::BioauthLostNotification { chat_id, .. } => {
                FailedNotification::BioauthLostNotificationFailed { chat_id: *chat_id }
            },
            Notification::BioauthSoonExpiredAlert { chat_id, .. } => {
                FailedNotification::BioauthSoonExpiredAlertFailed { chat_id: *chat_id }
            },
        }
    }
}

/// The engine: the registry of subscriptions with their timing state.
#[derive(Debug)]
pub struct BioauthLogic<BioauthPublicKey> {
    pub bioauth_subscription_map: BioauthSubscriptionMap<BioauthPublicKey>,
}

/// One persisted subscription, as the engine is seeded with it.
#[derive(Debug)]
pub struct InitParamBioauth<BioauthPublicKey> {
    pub bioauth_public_key: BioauthPublicKey,
    pub t_chat_id: ChatId,
}

/// The persisted subscriptions that the engine starts from.
#[derive(Debug)]
pub struct InitParams<BioauthPublicKey> {
    pub bioauths: Vec<InitParamBioauth<BioauthPublicKey>>,
}

/// One finalized block, as the engine sees it.
#[derive(Debug)]
pub struct NewBlockParams<'a, BioauthPublicKey> {
    pub block_number: u32,
    /// Expiry timestamp of every key with an active authentication.
    pub active_authentications_map: &'a HashMap<BioauthPublicKey, u64>,
    pub bioauth_settings_map: &'a BioauthSettingsMap<BioauthPublicKey>,
}

/// The pairing that a subscription change is about.
#[derive(Debug)]
pub struct UpdateSubscriptionParams<BioauthPublicKey> {
    pub t_chat_id: ChatId,
    pub bioauth_public_key: BioauthPublicKey,
}

/// What a chain snapshot says of one key.
#[derive(Debug, Clone)]
pub struct Subscrition {
    pub block_number: u32,
    pub expired_at: Option<u64>,
}

/// Whether the seed lists the pairing.
pub open spec fn listed<Key>(
    bioauths: Seq<InitParamBioauth<Key>>,
    key: Key,
    chat_id: ChatId,
) -> bool {
    exists|i: int|
        0 <= i < bioauths.len() && (#[trigger] bioauths[i]).bioauth_public_key == key
            && bioauths[i].t_chat_id == chat_id
}

/// The registry that a seed gives: the listed pairings, each with fresh state.
pub open spec fn seeded<Key>(bioauths: Seq<InitParamBioauth<Key>>) -> Subscriptions<Key> {
    Map::new(
        |key: Key| exists|chat_id: ChatId| listed(bioauths, key, chat_id),
        |key: Key|
            Map::new(
                |chat_id: ChatId| listed(bioauths, key, chat_id),
                |chat_id: ChatId| fresh_state(),
            ),
    )
}

/// Whether the batch reports a failed "lost" notification for the chat.
pub open spec fn lost_failed(failures: Seq<FailedNotification>, chat_id: ChatId) -> bool {
    failures.contains(FailedNotification::BioauthLostNotificationFailed { chat_id })
}

/// Whether the batch reports a failed alert for the chat.
pub open spec fn alert_failed(failures: Seq<FailedNotification>, chat_id: ChatId) -> bool {
    failures.contains(FailedNotification::BioauthSoonExpiredAlertFailed { chat_id })
}

/// A pairing's state after its chat's failures: a failed "lost" notification
/// lifts the throttle, a failed alert forgets the last alert.
pub open spec fn retried(
    state: BioauthNotificationState,
    lost_failed: bool,
    alert_failed: bool,
) -> BioauthNotificationState {
    BioauthNotificationState {
        last_block_number_notified: if lost_failed {
            0
        } else {
            state.last_block_number_notified
        },
        next_block_number_to_notify: if lost_failed {
            0
        } else {
            state.next_block_number_to_notify
        },
        alerted_at: if alert_failed {
            None
        } else {
            state.alerted_at
        },
    }
}

/// The registry after a batch of failures: every pairing of a failed chat is
/// reset, whatever its key.
pub open spec fn after_failures<Key>(
    subs: Subscriptions<Key>,
    failures: Seq<FailedNotification>,
) -> Subscriptions<Key> {
    Map::new(
        |key: Key| subs.contains_key(key),
        |key: Key|
            Map::new(
                |chat_id: ChatId| subs[key].contains_key(chat_id),
                |chat_id: ChatId|
                    retried(
                        subs[key][chat_id],
                        lost_failed(failures, chat_id),
                        alert_failed(failures, chat_id),
                    ),
            ),
    )
}

/// Whether every pairing's decision on this block stays inside the machine
/// integers.
pub open spec fn block_evaluable<Key>(
    subs: Subscriptions<Key>,
    block_number: u32,
    active: Map<Key, u64>,
    settings: Map<(i64, Key), BioauthSettings>,
) -> bool {
    forall|key: Key, chat_id: ChatId| #[trigger]
        has_pairing(subs, key, chat_id) ==> evaluable(
            subs[key][chat_id],
            block_number,
            active.get(key),
            settings_of(settings, (chat_id, key)),
        )
}

/// The registry after a block: every pairing's state moved on by its own
/// decision.
pub open spec fn after_block<Key>(
    subs: Subscriptions<Key>,
    block_number: u32,
    active: Map<Key, u64>,
    settings: Map<(i64, Key), BioauthSettings>,
    now: u64,
) -> Subscriptions<Key> {
    Map::new(
        |key: Key| subs.contains_key(key),
        |key: Key|
            Map::new(
                |chat_id: ChatId| subs[key].contains_key(chat_id),
                |chat_id: ChatId|
                    next_state(
                        subs[key][chat_id],
                        block_number,
                        active.get(key),
                        settings_of(settings, (chat_id, key)),
                        now,
                    ),
            ),
    )
}

/// The notification that a pairing of the registry gets on a block, if any.
pub open spec fn pairing_notification<Key>(
    subs: Subscriptions<Key>,
    key: Key,
    chat_id: ChatId,
    block_number: u32,
    active: Map<Key, u64>,
    settings: Map<(i64, Key), BioauthSettings>,
    now: u64,
) -> Option<Notification<Key>> {
    notification_for(
        subs[key][chat_id],
        key,
        chat_id,
        block_number,
        active.get(key),
        settings_of(settings, (chat_id, key)),
        now,
    )
}

/// Whether `notification` goes out on a block: its pairing is in the
/// registry, and the pairing's decision is this notification.
pub open spec fn block_notifies<Key>(
    subs: Subscriptions<Key>,
    block_number: u32,
    active: Map<Key, u64>,
    settings: Map<(i64, Key), BioauthSettings>,
    now: u64,
    notification: Notification<Key>,
) -> bool {
    has_pairing(subs, notification.key(), notification.chat()) && pairing_notification(
        subs,
        notification.key(),
        notification.chat(),
        block_number,
        active,
        settings,
        now,
    ) == Some(notification)
}

/// Whether `order` names every pairing of the registry once.
pub open spec fn walks_every_pairing<Key>(
    subs: Subscriptions<Key>,
    order: Seq<(Key, ChatId)>,
) -> bool {
    &&& order.no_duplicates()
    &&& forall|key: Key, chat_id: ChatId|
        #![trigger order.contains((key, chat_id))]
        #![trigger has_pairing(subs, key, chat_id)]
        order.contains((key, chat_id)) <==> has_pairing(subs, key, chat_id)
}

/// The notifications of a block in the order in which they are appended:
/// those of the pairings in `order`, pairing by pairing.
pub open spec fn notifications_along<Key>(
    order: Seq<(Key, ChatId)>,
    subs: Subscriptions<Key>,
    block_number: u32,
    active: Map<Key, u64>,
    settings: Map<(i64, Key), BioauthSettings>,
    now: u64,
) -> Seq<Notification<Key>>
    decreases order.len(),
{
    if order.len() == 0 {
        Seq::empty()
    } else {
        let earlier = notifications_along(
            order.drop_last(),
            subs,
            block_number,
            active,
            settings,
            now,
        );
        match pairing_notification(
            subs,
            order.last().0,
            order.last().1,
            block_number,
            active,
            settings,
            now,
        ) {
            Some(notification) => earlier.push(notification),
            None => earlier,
        }
    }
}

/// What one run of the engine at time `now` does. The registry moves from
/// `before` to `after`. The pairings are decided in `order`, which names each
/// of them once, and `notifications` holds what is due in that order: so
/// every notification that is due is there, once.
pub open spec fn block_outcome<Key>(
    before: Subscriptions<Key>,
    after: Subscriptions<Key>,
    notifications: Seq<Notification<Key>>,
    order: Seq<(Key, ChatId)>,
    block_number: u32,
    active: Map<Key, u64>,
    settings: Map<(i64, Key), BioauthSettings>,
    now: u64,
) -> bool {
    &&& after == after_block(before, block_number, active, settings, now)
    &&& walks_every_pairing(before, order)
    &&& notifications == notifications_along(order, before, block_number, active, settings, now)
    &&& notifications.no_duplicates()
    &&& forall|n: Notification<Key>| #[trigger]
        notifications.contains(n) <==> block_notifies(
            before,
            block_number,
            active,
            settings,
            now,
            n,
        )
}

impl<BioauthPublicKey> BioauthLogic<BioauthPublicKey> {
    /// The registry's contents.
    pub open spec fn view(&self) -> Subscriptions<BioauthPublicKey> {
        self.bioauth_subscription_map@
    }
}

impl<BioauthPublicKey> BioauthLogic<BioauthPublicKey> where BioauthPublicKey: Eq + Hash + Copy {
    /// Builds the engine from the persisted subscriptions. Timing state is not
    /// persisted: every pairing starts fresh.
    pub fn init(params: InitParams<BioauthPublicKey>) -> (logic: Self)
        requires
            obeys_key_model::<BioauthPublicKey>(),
        ensures
            logic@ == seeded(params.bioauths@),
    {
        let mut bioauth_subscription_map = BioauthSubscriptionMap::new();
        let mut i: usize = 0;
        assert(bioauth_subscription_map@ =~~= seeded(params.bioauths@.take(0)));
        while i < params.bioauths.len()
            invariant
                obeys_key_model::<BioauthPublicKey>(),
                i <= params.bioauths.len(),
                bioauth_subscription_map@ == seeded(params.bioauths@.take(i as int)),
            decreases params.bioauths.len() - i,
        {
            let key = params.bioauths[i].bioauth_public_key;
            let chat_id = params.bioauths[i].t_chat_id;
            bioauth_subscription_map.subscribe(key, chat_id);
            proof {
                lemma_seeded_step(params.bioauths@, i as int);
            }
            i = i + 1;
        }
        assert(params.bioauths@.take(i as int) =~= params.bioauths@);
        BioauthLogic { bioauth_subscription_map }
    }

    /// Takes in a batch of delivery failures: every pairing of a chat with a
    /// failed "lost" notification loses its throttle, every pairing of a chat
    /// with a failed alert forgets its last alert.
    pub fn communicate_notification_failures(&mut self, failures: &[FailedNotification])
        requires
            obeys_key_model::<BioauthPublicKey>(),
        ensures
            final(self)@ == after_failures(old(self)@, failures@),
    {
        let mut failed_notifications_chat_ids: HashSet<i64> = HashSet::new();
        let mut failed_alerts_chat_ids: HashSet<i64> = HashSet::new();
        let mut n: usize = 0;
        while n < failures.len()
            invariant
                n <= failures.len(),
                forall|c: ChatId|
                    failed_notifications_chat_ids@.contains(c) <==> lost_failed(
                        failures@.take(n as int),
                        c,
                    ),
                forall|c: ChatId|
                    failed_alerts_chat_ids@.contains(c) <==> alert_failed(
                        failures@.take(n as int),
                        c,
                    ),
            decreases failures.len() - n,
        {
            let ghost seen = failures@.take(n as int);
            match failures[n] {
                FailedNotification::BioauthLostNotificationFailed { chat_id } => {
                    failed_notifications_chat_ids.insert(chat_id);
                },
                FailedNotification::BioauthSoonExpiredAlertFailed { chat_id } => {
                    failed_alerts_chat_ids.insert(chat_id);
                },
            }
            assert(failures@.take(n + 1) =~= seen.push(failures@[n as int]));
            assert forall|f: FailedNotification|
                seen.push(failures@[n as int]).contains(f) <==> seen.contains(f) || f
                    == failures@[n as int] by {
                if seen.contains(f) {
                    let j = choose|j: int| 0 <= j < seen.len() && seen[j] == f;
                    assert(seen.push(failures@[n as int])[j] == f);
                }
                if f == failures@[n as int] {
                    assert(seen.push(failures@[n as int])[seen.len() as int] == f);
                }
            }
            n = n + 1;
        }
        assert(failures@.take(n as int) =~= failures@);
        let pairings = self.bioauth_subscription_map.pairings();
        let mut i: usize = 0;
        while i < pairings.len()
            invariant
                obeys_key_model::<BioauthPublicKey>(),
                i <= pairings.len(),
                pairings@.no_duplicates(),
                forall|key: BioauthPublicKey, chat_id: ChatId|
                    #![trigger pairings@.contains((key, chat_id))]
                    #![trigger has_pairing(old(self)@, key, chat_id)]
                    pairings@.contains((key, chat_id)) <==> has_pairing(old(self)@, key, chat_id),
                forall|c: ChatId|
                    failed_notifications_chat_ids@.contains(c) <==> lost_failed(failures@, c),
                forall|c: ChatId| failed_alerts_chat_ids@.contains(c) <==> alert_failed(failures@, c),
                same_pairings(self@, old(self)@),
                forall|j: int|
                    0 <= j < i ==> self@[(#[trigger] pairings[j]).0][pairings[j].1] == retried(
                        old(self)@[pairings[j].0][pairings[j].1],
                        lost_failed(failures@, pairings[j].1),
                        alert_failed(failures@, pairings[j].1),
                    ),
                forall|j: int|
                    i <= j < pairings.len() ==> self@[(#[trigger] pairings[j]).0][pairings[j].1]
                        == old(self)@[pairings[j].0][pairings[j].1],
            decreases pairings.len() - i,
        {
            let (key, chat_id) = pairings[i];
            assert(pairings@.contains((key, chat_id)));
            let ghost before = self@;
            let mut state = self.bioauth_subscription_map.state(&key, chat_id).unwrap();
            if failed_notifications_chat_ids.contains(&chat_id) {
                state.last_block_number_notified = 0;
                state.next_block_number_to_notify = 0;
            }
            if failed_alerts_chat_ids.contains(&chat_id) {
                state.alerted_at = None;
            }
            self.bioauth_subscription_map.set_state(key, chat_id, state);
            proof {
                lemma_with_state_elsewhere(before, pairings@, i as int, state);
            }
            i = i + 1;
        }
        proof {
            let target = after_failures(old(self)@, failures@);
            assert forall|key: BioauthPublicKey| self@.contains_key(key) implies #[trigger] self@[key]
                =~= target[key] by {
                assert forall|chat_id: ChatId| self@[key].contains_key(chat_id) implies self@[key][chat_id]
                    == target[key][chat_id] by {
                    assert(has_pairing(old(self)@, key, chat_id));
                    assert(pairings@.contains((key, chat_id)));
                    let j = choose|j: int| 0 <= j < pairings@.len() && pairings@[j] == (key, chat_id);
                    assert(pairings[j].0 == key && pairings[j].1 == chat_id);
                }
            }
            assert(self@ =~= target);
        }
    }

    /// Tests whether the engine can run on this block: whether
    /// [`block_evaluable`] holds.
    pub fn can_process(&self, params: &NewBlockParams<BioauthPublicKey>) -> (ok: bool)
        requires
            obeys_key_model::<BioauthPublicKey>(),
        ensures
            ok == block_evaluable(
                self@,
                params.block_number,
                params.active_authentications_map@,
                params.bioauth_settings_map@,
            ),
    {
        let pairings = self.bioauth_subscription_map.pairings();
        let mut i: usize = 0;
        while i < pairings.len()
            invariant
                obeys_key_model::<BioauthPublicKey>(),
                i <= pairings.len(),
                forall|key: BioauthPublicKey, chat_id: ChatId|
                    #![trigger pairings@.contains((key, chat_id))]
                    #![trigger has_pairing(self@, key, chat_id)]
                    pairings@.contains((key, chat_id)) <==> has_pairing(self@, key, chat_id),
                forall|j: int|
                    0 <= j < i ==> evaluable(
                        self@[(#[trigger] pairings[j]).0][pairings[j].1],
                        params.block_number,
                        params.active_authentications_map@.get(pairings[j].0),
                        settings_of(params.bioauth_settings_map@, (pairings[j].1, pairings[j].0)),
                    ),
            decreases pairings.len() - i,
        {
            let (key, chat_id) = pairings[i];
            assert(pairings@.contains((key, chat_id)));
            let expires_at = match params.active_authentications_map.get(&key) {
                Some(expires_at) => Some(*expires_at),
                None => None,
            };
            let settings = params.bioauth_settings_map.get(&(chat_id, key));
            let state = self.bioauth_subscription_map.state(&key, chat_id).unwrap();
            if !can_evaluate(&state, params.block_number, expires_at, &settings) {
                assert(has_pairing(self@, key, chat_id));
                return false;
            }
            i = i + 1;
        }
        assert forall|key: BioauthPublicKey, chat_id: ChatId| #[trigger]
            has_pairing(self@, key, chat_id) implies evaluable(
            self@[key][chat_id],
            params.block_number,
            params.active_authentications_map@.get(key),
            settings_of(params.bioauth_settings_map@, (chat_id, key)),
        ) by {
            assert(pairings@.contains((key, chat_id)));
            let j = choose|j: int| 0 <= j < pairings@.len() && pairings@[j] == (key, chat_id);
            assert(pairings[j].0 == key && pairings[j].1 == chat_id);
        }
        true
    }

    /// Runs the engine on one block at time `now` (seconds since the epoch):
    /// every pairing is decided once, its state moves on, and the
    /// notifications that are due come back, in the order in which the
    /// registry walks its pairings.
    pub fn new_block_at(&mut self, params: NewBlockParams<BioauthPublicKey>, now: u64) -> (notifications:
        Vec<Notification<BioauthPublicKey>>)
        requires
            obeys_key_model::<BioauthPublicKey>(),
            block_evaluable(
                old(self)@,
                params.block_number,
                params.active_authentications_map@,
                params.bioauth_settings_map@,
            ),
        ensures
            block_outcome(
                old(self)@,
                final(self)@,
                notifications@,
                old(self).bioauth_subscription_map.walk(),
                params.block_number,
                params.active_authentications_map@,
                params.bioauth_settings_map@,
                now,
            ),
    {
        let NewBlockParams { block_number, active_authentications_map, bioauth_settings_map } =
            params;
        let ghost active = active_authentications_map@;
        let ghost settings_map = bioauth_settings_map@;
        let mut notifications: Vec<Notification<BioauthPublicKey>> = Vec::new();
        let pairings = self.bioauth_subscription_map.pairings();
        let mut i: usize = 0;
        assert(pairings@.take(0) =~= Seq::empty());
        while i < pairings.len()
            invariant
                obeys_key_model::<BioauthPublicKey>(),
                i <= pairings.len(),
                pairings@ == old(self).bioauth_subscription_map.walk(),
                notifications@ == notifications_along(
                    pairings@.take(i as int),
                    old(self)@,
                    block_number,
                    active,
                    settings_map,
                    now,
                ),
                active == active_authentications_map@,
                settings_map == bioauth_settings_map@,
                block_evaluable(old(self)@, block_number, active, settings_map),
                pairings@.no_duplicates(),
                forall|key: BioauthPublicKey, chat_id: ChatId|
                    #![trigger pairings@.contains((key, chat_id))]
                    #![trigger has_pairing(old(self)@, key, chat_id)]
                    pairings@.contains((key, chat_id)) <==> has_pairing(old(self)@, key, chat_id),
                same_pairings(self@, old(self)@),
                forall|j: int|
                    0 <= j < i ==> self@[(#[trigger] pairings[j]).0][pairings[j].1] == next_state(
                        old(self)@[pairings[j].0][pairings[j].1],
                        block_number,
                        active.get(pairings[j].0),
                        settings_of(settings_map, (pairings[j].1, pairings[j].0)),
                        now,
                    ),
                forall|j: int|
                    i <= j < pairings.len() ==> self@[(#[trigger] pairings[j]).0][pairings[j].1]
                        == old(self)@[pairings[j].0][pairings[j].1],
                notifications@.no_duplicates(),
                forall|n: Notification<BioauthPublicKey>| #[trigger]
                    notifications@.contains(n) <==> exists|j: int|
                        0 <= j < i && pairing_notification(
                            old(self)@,
                            (#[trigger] pairings[j]).0,
                            pairings[j].1,
                            block_number,
                            active,
                            settings_map,
                            now,
                        ) == Some(n),
            decreases pairings.len() - i,
        {
            let (key, chat_id) = pairings[i];
            assert(pairings@.contains((key, chat_id)));
            assert(has_pairing(old(self)@, key, chat_id));
            let ghost before = self@;
            let ghost sent = notifications@;
            let expires_at = match active_authentications_map.get(&key) {
                Some(expires_at) => Some(*expires_at),
                None => None,
            };
            let settings = bioauth_settings_map.get(&(chat_id, key));
            let mut state = self.bioauth_subscription_map.state(&key, chat_id).unwrap();
            let notification = evaluate(
                &mut state,
                key,
                chat_id,
                block_number,
                expires_at,
                &settings,
                now,
            );
            self.bioauth_subscription_map.set_state(key, chat_id, state);
            proof {
                lemma_with_state_elsewhere(before, pairings@, i as int, state);
            }
            match notification {
                Some(notification) => {
                    notifications.push(notification);
                    assert(notifications@.no_duplicates()) by {
                        assert forall|a: int|
                            0 <= a < sent.len() implies sent[a] != notification by {
                            assert(sent.contains(sent[a]));
                            let j = choose|j: int|
                                0 <= j < i && pairing_notification(
                                    old(self)@,
                                    (#[trigger] pairings[j]).0,
                                    pairings[j].1,
                                    block_number,
                                    active,
                                    settings_map,
                                    now,
                                ) == Some(sent[a]);
                            assert(pairings@[j] != pairings@[i as int]);
                        }
                    }
                    assert forall|n: Notification<BioauthPublicKey>|
                        notifications@.contains(n) <==> sent.contains(n) || n == notification by {
                        if sent.contains(n) {
                            let a = choose|a: int| 0 <= a < sent.len() && sent[a] == n;
                            assert(notifications@[a] == n);
                        }
                        if n == notification {
                            assert(notifications@[sent.len() as int] == n);
                        }
                    }
                },
                None => {},
            }
            proof {
                assert(pairings[i as int].0 == key && pairings[i as int].1 == chat_id);
                assert(pairings@.take(i + 1).drop_last() =~= pairings@.take(i as int));
                assert(pairings@.take(i + 1).last() == pairings@[i as int]);
                assert(notification == pairing_notification(
                    old(self)@,
                    key,
                    chat_id,
                    block_number,
                    active,
                    settings_map,
                    now,
                ));
                assert forall|n: Notification<BioauthPublicKey>| #[trigger]
                    notifications@.contains(n) <==> exists|j: int|
                        0 <= j < i + 1 && pairing_notification(
                            old(self)@,
                            (#[trigger] pairings[j]).0,
                            pairings[j].1,
                            block_number,
                            active,
                            settings_map,
                            now,
                        ) == Some(n) by {
                    assert(notifications@.contains(n) <==> sent.contains(n) || Some(n)
                        == notification);
                    if sent.contains(n) {
                        let j = choose|j: int|
                            0 <= j < i && pairing_notification(
                                old(self)@,
                                (#[trigger] pairings[j]).0,
                                pairings[j].1,
                                block_number,
                                active,
                                settings_map,
                                now,
                            ) == Some(n);
                        assert(0 <= j < i + 1);
                    }
                    if exists|j: int|
                        0 <= j < i + 1 && pairing_notification(
                            old(self)@,
                            (#[trigger] pairings[j]).0,
                            pairings[j].1,
                            block_number,
                            active,
                            settings_map,
                            now,
                        ) == Some(n) {
                        let j = choose|j: int|
                            0 <= j < i + 1 && pairing_notification(
                                old(self)@,
                                (#[trigger] pairings[j]).0,
                                pairings[j].1,
                                block_number,
                                active,
                                settings_map,
                                now,
                            ) == Some(n);
                        if j < i {
                            assert(sent.contains(n));
                        }
                    }
                }
            }
            i = i + 1;
        }
        proof {
            assert(pairings@.take(i as int) =~= pairings@);
            let target = after_block(old(self)@, block_number, active, settings_map, now);
            assert forall|key: BioauthPublicKey| self@.contains_key(key) implies #[trigger] self@[key]
                =~= target[key] by {
                assert forall|chat_id: ChatId| self@[key].contains_key(chat_id) implies self@[key][chat_id]
                    == target[key][chat_id] by {
                    assert(has_pairing(old(self)@, key, chat_id));
                    assert(pairings@.contains((key, chat_id)));
                    let j = choose|j: int| 0 <= j < pairings@.len() && pairings@[j] == (key, chat_id);
                    assert(pairings[j].0 == key && pairings[j].1 == chat_id);
                }
            }
            assert(self@ =~= target);
            assert forall|n: Notification<BioauthPublicKey>| #[trigger]
                notifications@.contains(n) <==> block_notifies(
                    old(self)@,
                    block_number,
                    active,
                    settings_map,
                    now,
                    n,
                ) by {
                if notifications@.contains(n) {
                    let j = choose|j: int|
                        0 <= j < i && pairing_notification(
                            old(self)@,
                            (#[trigger] pairings[j]).0,
                            pairings[j].1,
                            block_number,
                            active,
                            settings_map,
                            now,
                        ) == Some(n);
                    assert(pairings@.contains(pairings@[j]));
                    assert(has_pairing(old(self)@, pairings[j].0, pairings[j].1));
                }
                if block_notifies(old(self)@, block_number, active, settings_map, now, n) {
                    assert(pairings@.contains((n.key(), n.chat())));
                    let j = choose|j: int|
                        0 <= j < pairings@.len() && pairings@[j] == (n.key(), n.chat());
                    assert(pairings[j].0 == n.key() && pairings[j].1 == n.chat());
                }
            }
        }
        notifications
    }

    /// Runs the engine on one block at the time that the system clock shows.
    pub fn new_block(&mut self, params: NewBlockParams<BioauthPublicKey>) -> (notifications: Vec<
        Notification<BioauthPublicKey>,
    >)
        requires
            obeys_key_model::<BioauthPublicKey>(),
            block_evaluable(
                old(self)@,
                params.block_number,
                params.active_authentications_map@,
                params.bioauth_settings_map@,
            ),
        ensures
            exists|now: u64|
                block_outcome(
                    old(self)@,
                    final(self)@,
                    notifications@,
                    old(self).bioauth_subscription_map.walk(),
                    params.block_number,
                    params.active_authentications_map@,
                    params.bioauth_settings_map@,
                    now,
                ),
    {
        let now = unix_time_secs();
        self.new_block_at(params, now)
    }

    /// Subscribes a chat to a key. An existing pairing keeps its state.
    pub fn update_subscription(&mut self, params: UpdateSubscriptionParams<BioauthPublicKey>)
        requires
            obeys_key_model::<BioauthPublicKey>(),
        ensures
            final(self)@ == subscribed(old(self)@, params.bioauth_public_key, params.t_chat_id),
    {
        let UpdateSubscriptionParams { t_chat_id, bioauth_public_key } = params;
        self.bioauth_subscription_map.subscribe(bioauth_public_key, t_chat_id);
    }

    /// Ends the subscription of a chat to a key, with its state.
    pub fn remove_subscription(&mut self, params: UpdateSubscriptionParams<BioauthPublicKey>)
        requires
            obeys_key_model::<BioauthPublicKey>(),
        ensures
            final(self)@ == unsubscribed(old(self)@, params.bioauth_public_key, params.t_chat_id),
    {
        let UpdateSubscriptionParams { t_chat_id, bioauth_public_key } = params;
        self.bioauth_subscription_map.unsubscribe(bioauth_public_key, t_chat_id);
    }

    /// Ends every subscription of a chat.
    pub fn remove_all_subscription(&mut self, t_chat_id: ChatId)
        requires
            obeys_key_model::<BioauthPublicKey>(),
        ensures
            final(self)@ == unsubscribed_all(old(self)@, t_chat_id),
    {
        self.bioauth_subscription_map.unsubscribe_all(t_chat_id);
    }
}

/// The first notification is immediate. A pairing of the registry with no
/// throttle in effect, such as one that was just subscribed, gets a "lost"
/// notification on the first block on which its key has no active
/// authentication, whatever the block's number.
pub proof fn unthrottled_pairing_is_notified_on_block<Key>(
    subs: Subscriptions<Key>,
    key: Key,
    chat_id: ChatId,
    block_number: u32,
    active: Map<Key, u64>,
    settings: Map<(i64, Key), BioauthSettings>,
    now: u64,
)
    requires
        has_pairing(subs, key, chat_id),
        subs[key][chat_id].next_block_number_to_notify == 0,
        !active.contains_key(key),
    ensures
        block_notifies(
            subs,
            block_number,
            active,
            settings,
            now,
            Notification::BioauthLostNotification { chat_id, bioauth_public_key: key },
        ),
{
}

/// A failed "lost" notification is retried. After a batch that reports one
/// for a chat, every pairing of that chat whose key has no active
/// authentication is notified on the next run of the engine, whatever throttle
/// window it was in.
pub proof fn failed_lost_notification_is_retried<Key>(
    subs: Subscriptions<Key>,
    failures: Seq<FailedNotification>,
    key: Key,
    chat_id: ChatId,
    block_number: u32,
    active: Map<Key, u64>,
    settings: Map<(i64, Key), BioauthSettings>,
    now: u64,
)
    requires
        has_pairing(subs, key, chat_id),
        lost_failed(failures, chat_id),
        !active.contains_key(key),
    ensures
        block_notifies(
            after_failures(subs, failures),
            block_number,
            active,
            settings,
            now,
            Notification::BioauthLostNotification { chat_id, bioauth_public_key: key },
        ),
{
}

/// Failures add up. Taking in two batches one after the other leaves the
/// registry as taking in both at once does.
pub proof fn failure_batches_add_up<Key>(
    subs: Subscriptions<Key>,
    first: Seq<FailedNotification>,
    second: Seq<FailedNotification>,
)
    ensures
        after_failures(after_failures(subs, first), second) == after_failures(
            subs,
            first + second,
        ),
{
    let both = first + second;
    assert forall|f: FailedNotification| both.contains(f) <==> first.contains(f) || second.contains(
        f,
    ) by {
        if first.contains(f) {
            let i = choose|i: int| 0 <= i < first.len() && first[i] == f;
            assert(both[i] == f);
        }
        if second.contains(f) {
            let i = choose|i: int| 0 <= i < second.len() && second[i] == f;
            assert(both[first.len() + i] == f);
        }
        if both.contains(f) {
            let i = choose|i: int| 0 <= i < both.len() && both[i] == f;
            if i < first.len() {
                assert(first[i] == f);
            } else {
                assert(second[i - first.len()] == f);
            }
        }
    }
    let stepwise = after_failures(after_failures(subs, first), second);
    let at_once = after_failures(subs, both);
    assert forall|key: Key| stepwise.contains_key(key) implies #[trigger] stepwise[key]
        =~= at_once[key] by {}
    assert(stepwise =~= at_once);
}

/// Whether two registries hold the same pairings.
pub open spec fn same_pairings<Key>(a: Subscriptions<Key>, b: Subscriptions<Key>) -> bool {
    &&& a.dom() == b.dom()
    &&& forall|key: Key| #[trigger] a.contains_key(key) ==> a[key].dom() == b[key].dom()
}

/// Replacing the state of one listed pairing keeps the pairings, and the
/// state of every other listed pairing.
proof fn lemma_with_state_elsewhere<Key>(
    subs: Subscriptions<Key>,
    pairings: Seq<(Key, ChatId)>,
    i: int,
    state: BioauthNotificationState,
)
    requires
        0 <= i < pairings.len(),
        pairings.no_duplicates(),
        has_pairing(subs, pairings[i].0, pairings[i].1),
    ensures
        same_pairings(with_state(subs, pairings[i].0, pairings[i].1, state), subs),
        with_state(subs, pairings[i].0, pairings[i].1, state)[pairings[i].0][pairings[i].1] == state,
        forall|j: int|
            0 <= j < pairings.len() && j != i ==> with_state(
                subs,
                pairings[i].0,
                pairings[i].1,
                state,
            )[(#[trigger] pairings[j]).0][pairings[j].1] == subs[pairings[j].0][pairings[j].1],
{
    let key = pairings[i].0;
    let chat_id = pairings[i].1;
    let after = with_state(subs, key, chat_id, state);
    assert(after.dom() =~= subs.dom());
    assert forall|k: Key| #[trigger] after.contains_key(k) implies after[k].dom() == subs[k].dom() by {
        assert(after[k].dom() =~= subs[k].dom());
    }
    assert forall|j: int| 0 <= j < pairings.len() && j != i implies after[(
        #[trigger] pairings[j]).0][pairings[j].1] == subs[pairings[j].0][pairings[j].1] by {
        assert(pairings[j] != pairings[i]);
    }
}

/// Seeding with one more subscription is subscribing it to what the seed gave
/// before.
proof fn lemma_seeded_step<Key>(bioauths: Seq<InitParamBioauth<Key>>, i: int)
    requires
        0 <= i < bioauths.len(),
    ensures
        subscribed(seeded(bioauths.take(i)), bioauths[i].bioauth_public_key, bioauths[i].t_chat_id)
            == seeded(bioauths.take(i + 1)),
{
    let shorter = bioauths.take(i);
    let longer = bioauths.take(i + 1);
    let key = bioauths[i].bioauth_public_key;
    let chat_id = bioauths[i].t_chat_id;
    let lhs = subscribed(seeded(shorter), key, chat_id);
    let rhs = seeded(longer);
    assert forall|k: Key, c: ChatId| listed(longer, k, c) <==> listed(shorter, k, c) || (k == key
        && c == chat_id) by {
        if listed(shorter, k, c) {
            let j = choose|j: int|
                0 <= j < shorter.len() && (#[trigger] shorter[j]).bioauth_public_key == k
                    && shorter[j].t_chat_id == c;
            assert(longer[j] == shorter[j]);
        }
        if k == key && c == chat_id {
            assert(longer[i] == bioauths[i]);
        }
        if listed(longer, k, c) {
            let j = choose|j: int|
                0 <= j < longer.len() && (#[trigger] longer[j]).bioauth_public_key == k
                    && longer[j].t_chat_id == c;
            if j < i {
                assert(shorter[j] == longer[j]);
            }
        }
    }
    assert(listed(longer, key, chat_id));
    assert forall|k: Key| lhs.contains_key(k) <==> rhs.contains_key(k) by {
        if seeded(shorter).contains_key(k) {
            let c = choose|c: ChatId| listed(shorter, k, c);
            assert(listed(longer, k, c));
        }
    }
    assert forall|k: Key| lhs.contains_key(k) implies #[trigger] lhs[k] =~= rhs[k] by {
        assert forall|c: ChatId| lhs[k].contains_key(c) <==> rhs[k].contains_key(c) by {
            assert(listed(longer, k, c) <==> listed(shorter, k, c) || (k == key && c == chat_id));
        }
    }
    assert(lhs =~= rhs);
}

} // verus!
