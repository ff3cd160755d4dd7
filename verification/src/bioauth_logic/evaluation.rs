//! The decision for one pairing on one block: whether a notification goes
//! out, and what the pairing's timing state becomes.

use crate::bioauth_logic::bioauth_subscription_map::BioauthNotificationState;
use crate::bioauth_logic::{ChatId, Notification};
use crate::bioauth_settings::BioauthSettings;
use vstd::prelude::*;

verus! {

/// Units of the expiry timestamp in one minute of lead time.
pub const LEAD_TIME_UNITS_PER_MINUTE: u64 = 60000;

/// Whether the throttle lets a "lost" notification out at `block_number`:
/// no throttle is in effect, or its window is over.
pub open spec fn lost_due(state: BioauthNotificationState, block_number: u32) -> bool {
    state.next_block_number_to_notify == 0 || block_number >= state.next_block_number_to_notify
}

/// The expiry timestamp less the lead time of the settings.
pub open spec fn alert_threshold(expires_at: u64, settings: BioauthSettings) -> int {
    expires_at - settings.alert_before_expiration_in_mins * LEAD_TIME_UNITS_PER_MINUTE
}

/// The threshold that the clock is held against: never earlier than the last
/// alert.
pub open spec fn effective_threshold(
    state: BioauthNotificationState,
    expires_at: u64,
    settings: BioauthSettings,
) -> int {
    let candidate = alert_threshold(expires_at, settings);
    match state.alerted_at {
        Some(prev) if prev >= candidate => prev as int,
        _ => candidate,
    }
}

/// Whether a "soon expired" alert goes out at time `now`.
pub open spec fn alert_due(
    state: BioauthNotificationState,
    expires_at: u64,
    settings: BioauthSettings,
    now: u64,
) -> bool {
    effective_threshold(state, expires_at, settings) <= now
}

/// Whether the pairing gets a notification on this block. `expires_at` is the
/// expiry of the key's active authentication, absent when it has none.
pub open spec fn emits(
    state: BioauthNotificationState,
    block_number: u32,
    expires_at: Option<u64>,
    settings: BioauthSettings,
    now: u64,
) -> bool {
    match expires_at {
        None => lost_due(state, block_number),
        Some(expires_at) => alert_due(state, expires_at, settings, now),
    }
}

/// The pairing's state after the block.
pub open spec fn next_state(
    state: BioauthNotificationState,
    block_number: u32,
    expires_at: Option<u64>,
    settings: BioauthSettings,
    now: u64,
) -> BioauthNotificationState {
    if !emits(state, block_number, expires_at, settings, now) {
        state
    } else if expires_at is None {
        BioauthNotificationState {
            last_block_number_notified: block_number,
            next_block_number_to_notify: (block_number
                + settings.max_message_frequency_in_blocks) as u32,
            alerted_at: state.alerted_at,
        }
    } else {
        BioauthNotificationState { alerted_at: Some(now), ..state }
    }
}

/// The notification that the pairing gets on this block, if any.
pub open spec fn notification_for<Key>(
    state: BioauthNotificationState,
    key: Key,
    chat_id: ChatId,
    block_number: u32,
    expires_at: Option<u64>,
    settings: BioauthSettings,
    now: u64,
) -> Option<Notification<Key>> {
    if !emits(state, block_number, expires_at, settings, now) {
        None
    } else if expires_at is None {
        Some(Notification::BioauthLostNotification { chat_id, bioauth_public_key: key })
    } else {
        Some(Notification::BioauthSoonExpiredAlert { chat_id, bioauth_public_key: key })
    }
}

/// Whether the arithmetic of the decision stays inside the machine integers:
/// the end of a new throttle window is a `u32`, and the lead time is no
/// longer than the expiry timestamp.
pub open spec fn evaluable(
    state: BioauthNotificationState,
    block_number: u32,
    expires_at: Option<u64>,
    settings: BioauthSettings,
) -> bool {
    match expires_at {
        None => lost_due(state, block_number) ==> block_number
            + settings.max_message_frequency_in_blocks <= u32::MAX,
        Some(expires_at) => settings.alert_before_expiration_in_mins * LEAD_TIME_UNITS_PER_MINUTE
            <= expires_at,
    }
}

/// Tests [`evaluable`].
pub fn can_evaluate(
    state: &BioauthNotificationState,
    block_number: u32,
    expires_at: Option<u64>,
    settings: &BioauthSettings,
) -> (ok: bool)
    ensures
        ok == evaluable(*state, block_number, expires_at, *settings),
{
    match expires_at {
        None => {
            if block_number < state.next_block_number_to_notify
                && state.next_block_number_to_notify != 0 {
                true
            } else {
                block_number.checked_add(settings.max_message_frequency_in_blocks).is_some()
            }
        },
        Some(expires_at) => {
            match settings.alert_before_expiration_in_mins.checked_mul(LEAD_TIME_UNITS_PER_MINUTE) {
                None => false,
                Some(lead_time) => lead_time <= expires_at,
            }
        },
    }
}

/// Decides one pairing on one block and moves its state on.
pub fn evaluate<Key>(
    state: &mut BioauthNotificationState,
    key: Key,
    chat_id: ChatId,
    block_number: u32,
    expires_at: Option<u64>,
    settings: &BioauthSettings,
    now: u64,
) -> (notification: Option<Notification<Key>>)
    requires
        evaluable(*old(state), block_number, expires_at, *settings),
    ensures
        *final(state) == next_state(*old(state), block_number, expires_at, *settings, now),
        notification == notification_for(
            *old(state),
            key,
            chat_id,
            block_number,
            expires_at,
            *settings,
            now,
        ),
{
    match expires_at {
        None => {
            if block_number < state.next_block_number_to_notify
                && state.next_block_number_to_notify != 0 {
                return None;
            }
            state.last_block_number_notified = block_number;
            state.next_block_number_to_notify = block_number
                + settings.max_message_frequency_in_blocks;
            Some(Notification::BioauthLostNotification { chat_id, bioauth_public_key: key })
        },
        Some(expires_at) => {
            let alert_at = expires_at - settings.alert_before_expiration_in_mins
                * LEAD_TIME_UNITS_PER_MINUTE;
            let alert_at = match state.alerted_at {
                None => alert_at,
                Some(alerted_at) => {
                    if alerted_at < alert_at {
                        if alert_at <= now {
                            state.alerted_at = None;
                        }
                        alert_at
                    } else {
                        alerted_at
                    }
                },
            };
            if alert_at <= now {
                state.alerted_at = Some(now);
                Some(Notification::BioauthSoonExpiredAlert { chat_id, bioauth_public_key: key })
            } else {
                None
            }
        },
    }
}

/// How many "lost" notifications a pairing gets over `blocks`, taken in
/// order, when its key has no active authentication on any of them.
pub open spec fn lost_notifications(
    state: BioauthNotificationState,
    blocks: Seq<u32>,
    settings: BioauthSettings,
) -> nat
    decreases blocks.len(),
{
    if blocks.len() == 0 {
        0
    } else {
        let sent: nat = if lost_due(state, blocks[0]) {
            1
        } else {
            0
        };
        sent + lost_notifications(
            next_state(state, blocks[0], None, settings, 0),
            blocks.drop_first(),
            settings,
        )
    }
}

/// The throttle window. A pairing is notified at `block_number` with a
/// frequency of `f` blocks, and its key stays without an active
/// authentication. Then the blocks after `block_number` and before
/// `block_number + f`, however many of them come and in whatever order, bring
/// no notification, and block `block_number + f` after them brings exactly
/// one.
pub proof fn throttle_window_holds(
    state: BioauthNotificationState,
    block_number: u32,
    settings: BioauthSettings,
    quiet: Seq<u32>,
)
    requires
        lost_due(state, block_number),
        block_number + settings.max_message_frequency_in_blocks <= u32::MAX,
        forall|i: int|
            0 <= i < quiet.len() ==> block_number < #[trigger] quiet[i] < block_number
                + settings.max_message_frequency_in_blocks,
    ensures
        lost_notifications(next_state(state, block_number, None, settings, 0), quiet, settings)
            == 0,
        lost_notifications(
            next_state(state, block_number, None, settings, 0),
            quiet.push((block_number + settings.max_message_frequency_in_blocks) as u32),
            settings,
        ) == 1,
    decreases quiet.len(),
{
    let notified = next_state(state, block_number, None, settings, 0);
    let end = (block_number + settings.max_message_frequency_in_blocks) as u32;
    if quiet.len() == 0 {
        assert(quiet.push(end).drop_first() =~= quiet);
        assert(lost_notifications(next_state(notified, end, None, settings, 0), quiet, settings)
            == 0);
    } else {
        assert(!lost_due(notified, quiet[0]));
        assert(next_state(notified, quiet[0], None, settings, 0) == notified);
        assert(quiet.push(end).drop_first() =~= quiet.drop_first().push(end));
        assert(quiet.push(end)[0] == quiet[0]);
        assert forall|i: int| 0 <= i < quiet.drop_first().len() implies block_number
            < #[trigger] quiet.drop_first()[i] < block_number
            + settings.max_message_frequency_in_blocks by {
            assert(quiet.drop_first()[i] == quiet[i + 1]);
        }
        throttle_window_holds(state, block_number, settings, quiet.drop_first());
    }
}

/// The first notification is immediate. A pairing with no throttle in effect
/// is notified on the first block on which its key has no active
/// authentication, whatever the block's number.
pub proof fn unthrottled_pairing_is_notified<Key>(
    state: BioauthNotificationState,
    key: Key,
    chat_id: ChatId,
    block_number: u32,
    settings: BioauthSettings,
    now: u64,
)
    requires
        state.next_block_number_to_notify == 0,
    ensures
        notification_for(state, key, chat_id, block_number, None, settings, now) == Some(
            Notification::BioauthLostNotification { chat_id, bioauth_public_key: key },
        ),
{
}

/// An alert is not repeated before its own time. A pairing is alerted at
/// `alerted_at`, and the expiry stays as it is. Then a later evaluation brings
/// the alert again exactly when the clock reads `alerted_at` or later: while
/// it reads earlier, nothing goes out and the state stays.
pub proof fn alert_repeats_from_its_own_time(
    state: BioauthNotificationState,
    expires_at: u64,
    settings: BioauthSettings,
    alerted_at: u64,
    block_number: u32,
    later_block_number: u32,
    now: u64,
)
    requires
        alert_due(state, expires_at, settings, alerted_at),
    ensures
        ({
            let alerted = next_state(state, block_number, Some(expires_at), settings, alerted_at);
            &&& alerted.alerted_at == Some(alerted_at)
            &&& emits(alerted, later_block_number, Some(expires_at), settings, now) <==> alerted_at
                <= now
            &&& now < alerted_at ==> next_state(
                alerted,
                later_block_number,
                Some(expires_at),
                settings,
                now,
            ) == alerted
        }),
{
}

} // verus!
