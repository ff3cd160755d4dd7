//! The decisions of the main loop: how the state is seeded, what a block
//! brings, and what a chat's request changes. The loop itself, which waits
//! for blocks and requests and sends what these functions return, is not
//! here.

use crate::bioauth_logic::bioauth_subscription_map::{
    subscribed, unsubscribed, unsubscribed_all, Subscriptions,
};
use crate::bioauth_logic::{
    after_failures, block_evaluable, block_outcome, seeded, BioauthLogic, ChatId,
    FailedNotification, InitParamBioauth, InitParams, NewBlockParams, Notification,
    UpdateSubscriptionParams,
};
use crate::bioauth_settings::{
    default_settings, settings_of, without_chat, BioauthSettings, BioauthSettingsMap,
};
use crate::block_subscription::BlockInfo;
use crate::clock::unix_time_secs;
use crate::database::{AllDevSubscriptions, DbCommand, LoadForInitialization};
use crate::dev_subscriptions::{DevSubscriptionMap, DevSubscriptions};
use crate::telegram::SubscriptionUpdate;
use std::hash::Hash;
use vstd::prelude::*;
use vstd::std_specs::hash::obeys_key_model;

verus! {

/// The subscriptions among the persisted rows, in the rows' order.
pub open spec fn loaded_bioauths<Key>(rows: Seq<LoadForInitialization<Key>>) -> Seq<
    InitParamBioauth<Key>,
> {
    rows.map_values(
        |row: LoadForInitialization<Key>|
            InitParamBioauth {
                bioauth_public_key: row.validator_public_key,
                t_chat_id: row.t_chat_id,
            },
    )
}

/// The settings store after the persisted rows were taken in, in their order.
pub open spec fn loaded_settings<Key>(
    settings: Map<(i64, Key), BioauthSettings>,
    rows: Seq<LoadForInitialization<Key>>,
) -> Map<(i64, Key), BioauthSettings>
    decreases rows.len(),
{
    if rows.len() == 0 {
        settings
    } else {
        loaded_settings(settings, rows.drop_last()).insert(
            (rows.last().t_chat_id, rows.last().validator_public_key),
            BioauthSettings {
                max_message_frequency_in_blocks: rows.last().max_message_frequency_in_blocks,
                alert_before_expiration_in_mins: rows.last().alert_before_expiration_in_mins,
            },
        )
    }
}

/// The team subscriptions after the persisted rows were taken in, in their
/// order.
pub open spec fn loaded_dev_subscriptions(
    subscriptions: Map<i64, DevSubscriptions>,
    rows: Seq<AllDevSubscriptions>,
) -> Map<i64, DevSubscriptions>
    decreases rows.len(),
{
    if rows.len() == 0 {
        subscriptions
    } else {
        loaded_dev_subscriptions(subscriptions, rows.drop_last()).insert(
            rows.last().t_chat_id,
            DevSubscriptions { affected_validator: rows.last().affected_validator },
        )
    }
}

/// The registry after a chat's request.
pub open spec fn subscriptions_after<Key>(
    subs: Subscriptions<Key>,
    update: SubscriptionUpdate<Key>,
) -> Subscriptions<Key> {
    match update {
        SubscriptionUpdate::SubscribeToValidator { chat_id, bioauth_public_key } => subscribed(
            subs,
            bioauth_public_key,
            chat_id,
        ),
        SubscriptionUpdate::UnsubscribeToValidator { chat_id, bioauth_public_key } => unsubscribed(
            subs,
            bioauth_public_key,
            chat_id,
        ),
        SubscriptionUpdate::RemoveAllValidatorSubscriptions { chat_id } => unsubscribed_all(
            subs,
            chat_id,
        ),
        _ => subs,
    }
}

/// The settings store after a chat's request. A subscription starts with the
/// default settings, also where the chat was subscribed before.
pub open spec fn settings_after<Key>(
    settings: Map<(i64, Key), BioauthSettings>,
    update: SubscriptionUpdate<Key>,
) -> Map<(i64, Key), BioauthSettings> {
    match update {
        SubscriptionUpdate::SubscribeToValidator { chat_id, bioauth_public_key } => settings.insert(
            (chat_id, bioauth_public_key),
            default_settings(),
        ),
        SubscriptionUpdate::UnsubscribeToValidator { chat_id, bioauth_public_key } => settings.remove(
            (chat_id, bioauth_public_key),
        ),
        SubscriptionUpdate::RemoveAllValidatorSubscriptions { chat_id } => without_chat(
            settings,
            chat_id,
        ),
        SubscriptionUpdate::UpdateSubscriptionAlertBeforeExpirationInMins {
            chat_id,
            bioauth_public_key,
            in_mins,
        } => settings.insert(
            (chat_id, bioauth_public_key),
            BioauthSettings {
                alert_before_expiration_in_mins: in_mins,
                ..settings_of(settings, (chat_id, bioauth_public_key))
            },
        ),
        SubscriptionUpdate::UpdateSubscriptionMaxMessageFrequencyInBlocks {
            chat_id,
            bioauth_public_key,
            in_blocks,
        } => settings.insert(
            (chat_id, bioauth_public_key),
            BioauthSettings {
                max_message_frequency_in_blocks: in_blocks,
                ..settings_of(settings, (chat_id, bioauth_public_key))
            },
        ),
        _ => settings,
    }
}

/// The team subscriptions after a chat's request.
pub open spec fn dev_subscriptions_after<Key>(
    subscriptions: Map<i64, DevSubscriptions>,
    update: SubscriptionUpdate<Key>,
) -> Map<i64, DevSubscriptions> {
    match update {
        SubscriptionUpdate::AffectedValidatorEnable { chat_id } => subscriptions.insert(
            chat_id,
            DevSubscriptions { affected_validator: true },
        ),
        SubscriptionUpdate::AffectedValidatorDisable { chat_id } => subscriptions.insert(
            chat_id,
            DevSubscriptions { affected_validator: false },
        ),
        _ => subscriptions,
    }
}

/// The database write that mirrors a chat's request.
pub open spec fn db_command_for<Key>(update: SubscriptionUpdate<Key>) -> DbCommand<Key> {
    match update {
        SubscriptionUpdate::SubscribeToValidator { chat_id, bioauth_public_key } => {
            DbCommand::BioauthSubscribe { chat_id, public_key: bioauth_public_key }
        },
        SubscriptionUpdate::UnsubscribeToValidator { chat_id, bioauth_public_key } => {
            DbCommand::BioauthUnsubscribe { chat_id, public_key: bioauth_public_key }
        },
        SubscriptionUpdate::RemoveAllValidatorSubscriptions { chat_id } => {
            DbCommand::BioauthUnsubscribeAll { chat_id }
        },
        SubscriptionUpdate::AffectedValidatorEnable { chat_id } => {
            DbCommand::UpdateAffectedValidatorSubscription { chat_id, enable: true }
        },
        SubscriptionUpdate::AffectedValidatorDisable { chat_id } => {
            DbCommand::UpdateAffectedValidatorSubscription { chat_id, enable: false }
        },
        SubscriptionUpdate::UpdateSubscriptionAlertBeforeExpirationInMins {
            chat_id,
            bioauth_public_key,
            in_mins,
        } => DbCommand::UpdateBioauthAlertBeforeExpirationInMins {
            chat_id,
            public_key: bioauth_public_key,
            alert_before_expiration_in_mins: in_mins,
        },
        SubscriptionUpdate::UpdateSubscriptionMaxMessageFrequencyInBlocks {
            chat_id,
            bioauth_public_key,
            in_blocks,
        } => DbCommand::UpdateBioauthMaxMessageFrequencyInBlocks {
            chat_id,
            public_key: bioauth_public_key,
            max_message_frequency_in_blocks: in_blocks,
        },
    }
}

/// Seeds the engine and the settings store from the persisted subscriptions.
/// Timing state is not persisted: every pairing starts fresh.
pub fn load_subscriptions<Key: Copy + Hash + Eq>(
    all_loaded_data: &[LoadForInitialization<Key>],
    bioauth_settings: &mut BioauthSettingsMap<Key>,
) -> (logic: BioauthLogic<Key>)
    requires
        obeys_key_model::<Key>(),
    ensures
        logic@ == seeded(loaded_bioauths(all_loaded_data@)),
        final(bioauth_settings)@ == loaded_settings(old(bioauth_settings)@, all_loaded_data@),
{
    let mut bioauths: Vec<InitParamBioauth<Key>> = Vec::new();
    let mut i: usize = 0;
    assert(all_loaded_data@.take(0) =~= Seq::empty());
    assert(bioauths@ =~= loaded_bioauths(all_loaded_data@.take(0)));
    while i < all_loaded_data.len()
        invariant
            obeys_key_model::<Key>(),
            i <= all_loaded_data.len(),
            bioauths@ == loaded_bioauths(all_loaded_data@.take(i as int)),
            bioauth_settings@ == loaded_settings(
                old(bioauth_settings)@,
                all_loaded_data@.take(i as int),
            ),
        decreases all_loaded_data.len() - i,
    {
        let data = all_loaded_data[i];
        bioauths.push(
            InitParamBioauth {
                t_chat_id: data.t_chat_id,
                bioauth_public_key: data.validator_public_key,
            },
        );
        bioauth_settings.update(
            (data.t_chat_id, data.validator_public_key),
            BioauthSettings {
                alert_before_expiration_in_mins: data.alert_before_expiration_in_mins,
                max_message_frequency_in_blocks: data.max_message_frequency_in_blocks,
            },
        );
        proof {
            let longer = all_loaded_data@.take(i + 1);
            assert(longer.drop_last() =~= all_loaded_data@.take(i as int));
            assert(longer.last() == data);
            assert(bioauths@ =~= loaded_bioauths(longer));
        }
        i = i + 1;
    }
    assert(all_loaded_data@.take(i as int) =~= all_loaded_data@);
    BioauthLogic::init(InitParams { bioauths })
}

/// Takes in what the chats have persisted of their team subscriptions.
pub fn load_team_subscriptions(
    all_team_subscriptions: &[AllDevSubscriptions],
    dev_subscriptions: &mut DevSubscriptionMap,
)
    ensures
        final(dev_subscriptions)@ == loaded_dev_subscriptions(
            old(dev_subscriptions)@,
            all_team_subscriptions@,
        ),
{
    let mut i: usize = 0;
    assert(all_team_subscriptions@.take(0) =~= Seq::empty());
    while i < all_team_subscriptions.len()
        invariant
            i <= all_team_subscriptions.len(),
            dev_subscriptions@ == loaded_dev_subscriptions(
                old(dev_subscriptions)@,
                all_team_subscriptions@.take(i as int),
            ),
        decreases all_team_subscriptions.len() - i,
    {
        let data = all_team_subscriptions[i];
        dev_subscriptions.update(
            data.t_chat_id,
            DevSubscriptions { affected_validator: data.affected_validator },
        );
        proof {
            let longer = all_team_subscriptions@.take(i + 1);
            assert(longer.drop_last() =~= all_team_subscriptions@.take(i as int));
            assert(longer.last() == data);
        }
        i = i + 1;
    }
    assert(all_team_subscriptions@.take(i as int) =~= all_team_subscriptions@);
}

/// What a block brings at time `now`. The delivery failures since the block
/// before are taken in first. Then, where the block's arithmetic stays inside
/// the machine integers, the engine runs, and the notifications come in the
/// order in which the registry walks its pairings; where it does not, nothing
/// more changes and no notifications come.
pub open spec fn block_brings<Key>(
    before: Subscriptions<Key>,
    failures: Seq<FailedNotification>,
    after: Subscriptions<Key>,
    notifications: Option<Seq<Notification<Key>>>,
    block_number: u32,
    active: Map<Key, u64>,
    settings: Map<(i64, Key), BioauthSettings>,
    now: u64,
) -> bool {
    let ready = after_failures(before, failures);
    if block_evaluable(ready, block_number, active, settings) {
        &&& notifications is Some
        &&& exists|order: Seq<(Key, ChatId)>| #[trigger]
            block_outcome(
                ready,
                after,
                notifications->0,
                order,
                block_number,
                active,
                settings,
                now,
            )
    } else {
        &&& notifications is None
        &&& after == ready
    }
}

/// The notifications of a run, if there was one.
pub open spec fn sent<Key>(notifications: Option<Vec<Notification<Key>>>) -> Option<
    Seq<Notification<Key>>,
> {
    match notifications {
        Some(notifications) => Some(notifications@),
        None => None,
    }
}

/// Takes in the delivery failures since the block before, and runs the engine
/// on the block at time `now`. `None` comes back, with the failures taken in
/// and nothing else changed, when the block's arithmetic would leave the
/// machine integers.
pub fn on_block_at<Key: Copy + Hash + Eq>(
    logic: &mut BioauthLogic<Key>,
    bioauth_settings_map: &BioauthSettingsMap<Key>,
    notification_failures: &[FailedNotification],
    block: &BlockInfo<Key>,
    now: u64,
) -> (notifications: Option<Vec<Notification<Key>>>)
    requires
        obeys_key_model::<Key>(),
    ensures
        block_brings(
            old(logic)@,
            notification_failures@,
            final(logic)@,
            sent(notifications),
            block.block_number,
            block.active_authentications_map@,
            bioauth_settings_map@,
            now,
        ),
{
    logic.communicate_notification_failures(notification_failures);
    let params = NewBlockParams {
        active_authentications_map: &block.active_authentications_map,
        block_number: block.block_number,
        bioauth_settings_map,
    };
    if !logic.can_process(&params) {
        return None;
    }
    let ghost ready = logic@;
    let ghost order = logic.bioauth_subscription_map.walk();
    let notifications = logic.new_block_at(params, now);
    let brought = Some(notifications);
    proof {
        assert(ready == after_failures(old(logic)@, notification_failures@));
        assert(block_outcome(
            ready,
            logic@,
            sent(brought)->0,
            order,
            block.block_number,
            block.active_authentications_map@,
            bioauth_settings_map@,
            now,
        ));
        assert(block_brings(
            old(logic)@,
            notification_failures@,
            logic@,
            sent(brought),
            block.block_number,
            block.active_authentications_map@,
            bioauth_settings_map@,
            now,
        ));
    }
    brought
}

/// Takes in the delivery failures since the block before, and runs the engine
/// on the block at the time that the system clock shows: see [`on_block_at`].
pub fn on_block<Key: Copy + Hash + Eq>(
    logic: &mut BioauthLogic<Key>,
    bioauth_settings_map: &BioauthSettingsMap<Key>,
    notification_failures: &[FailedNotification],
    block: &BlockInfo<Key>,
) -> (notifications: Option<Vec<Notification<Key>>>)
    requires
        obeys_key_model::<Key>(),
    ensures
        exists|now: u64|
            block_brings(
                old(logic)@,
                notification_failures@,
                final(logic)@,
                sent(notifications),
                block.block_number,
                block.active_authentications_map@,
                bioauth_settings_map@,
                now,
            ),
{
    let now = unix_time_secs();
    on_block_at(logic, bioauth_settings_map, notification_failures, block, now)
}

/// Applies a chat's request to the registry, the settings store and the team
/// subscriptions, and gives the database write that mirrors it.
pub fn apply_subscription_update<Key: Copy + Hash + Eq>(
    subscription_update: SubscriptionUpdate<Key>,
    bioauth_logic: &mut BioauthLogic<Key>,
    bioauth_settings: &mut BioauthSettingsMap<Key>,
    dev_subscriptions: &mut DevSubscriptionMap,
) -> (command: DbCommand<Key>)
    requires
        obeys_key_model::<Key>(),
    ensures
        final(bioauth_logic)@ == subscriptions_after(old(bioauth_logic)@, subscription_update),
        final(bioauth_settings)@ == settings_after(old(bioauth_settings)@, subscription_update),
        final(dev_subscriptions)@ == dev_subscriptions_after(
            old(dev_subscriptions)@,
            subscription_update,
        ),
        command == db_command_for(subscription_update),
{
    match subscription_update {
        SubscriptionUpdate::SubscribeToValidator { chat_id: t_chat_id, bioauth_public_key } => {
            bioauth_logic.update_subscription(
                UpdateSubscriptionParams { t_chat_id, bioauth_public_key },
            );
            bioauth_settings.update((t_chat_id, bioauth_public_key), BioauthSettings::default());
            DbCommand::BioauthSubscribe { chat_id: t_chat_id, public_key: bioauth_public_key }
        },
        SubscriptionUpdate::UnsubscribeToValidator { chat_id: t_chat_id, bioauth_public_key } => {
            bioauth_logic.remove_subscription(
                UpdateSubscriptionParams { t_chat_id, bioauth_public_key },
            );
            bioauth_settings.remove(&(t_chat_id, bioauth_public_key));
            DbCommand::BioauthUnsubscribe { chat_id: t_chat_id, public_key: bioauth_public_key }
        },
        SubscriptionUpdate::RemoveAllValidatorSubscriptions { chat_id: t_chat_id } => {
            bioauth_logic.remove_all_subscription(t_chat_id);
            bioauth_settings.remove_all_by_id(t_chat_id);
            DbCommand::BioauthUnsubscribeAll { chat_id: t_chat_id }
        },
        SubscriptionUpdate::AffectedValidatorDisable { chat_id } => {
            let affected_validator = false;
            dev_subscriptions.update(chat_id, DevSubscriptions { affected_validator });
            DbCommand::UpdateAffectedValidatorSubscription { chat_id, enable: affected_validator }
        },
        SubscriptionUpdate::AffectedValidatorEnable { chat_id } => {
            let affected_validator = true;
            dev_subscriptions.update(chat_id, DevSubscriptions { affected_validator });
            DbCommand::UpdateAffectedValidatorSubscription { chat_id, enable: affected_validator }
        },
        SubscriptionUpdate::UpdateSubscriptionAlertBeforeExpirationInMins {
            chat_id,
            bioauth_public_key,
            in_mins,
        } => {
            let key = (chat_id, bioauth_public_key);
            let mut settings = bioauth_settings.get(&key);
            settings.alert_before_expiration_in_mins = in_mins;
            bioauth_settings.update(key, settings);
            DbCommand::UpdateBioauthAlertBeforeExpirationInMins {
                chat_id,
                public_key: bioauth_public_key,
                alert_before_expiration_in_mins: in_mins,
            }
        },
        SubscriptionUpdate::UpdateSubscriptionMaxMessageFrequencyInBlocks {
            chat_id,
            bioauth_public_key,
            in_blocks,
        } => {
            let key = (chat_id, bioauth_public_key);
            let mut settings = bioauth_settings.get(&key);
            settings.max_message_frequency_in_blocks = in_blocks;
            bioauth_settings.update(key, settings);
            DbCommand::UpdateBioauthMaxMessageFrequencyInBlocks {
                chat_id,
                public_key: bioauth_public_key,
                max_message_frequency_in_blocks: in_blocks,
            }
        },
    }
}

} // verus!
