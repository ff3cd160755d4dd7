//! Notification timing by chat: each chat watches one validator, and is
//! told when the validator has no active authentication and when its
//! authentication is about to expire.

use crate::bioauth_logic::evaluation::LEAD_TIME_UNITS_PER_MINUTE;
use crate::channel_messages::Notification;
use crate::clock::unix_time_secs;
use crate::hash_keys::keys_of;
use std::collections::HashMap;
use vstd::prelude::*;

verus! {

/// Timing state of one chat.
#[derive(Debug, Clone, Copy, PartialEq, Eq)]
pub struct BioauthNotificationState {
    /// Block of the last "lost" notification; 0 when there was none.
    pub last_block_number_notified: u32,
    /// First block at which a "lost" notification may go out.
    pub next_block_number_to_notify: u32,
    /// When the alert is due; absent when none is pending.
    pub alert_at: Option<u64>,
}

/// The state of a chat that was never notified and has no alert pending.
pub open spec fn fresh_state() -> BioauthNotificationState {
    BioauthNotificationState {
        last_block_number_notified: 0,
        next_block_number_to_notify: 0,
        alert_at: None,
    }
}

impl Default for BioauthNotificationState {
    fn default() -> (r: Self)
        ensures
            r == fresh_state(),
    {
        BioauthNotificationState {
            last_block_number_notified: 0,
            next_block_number_to_notify: 0,
            alert_at: None,
        }
    }
}

/// The block from which a chat's throttle window is counted: the block of its
/// last notification, or the current one when it was never notified.
pub open spec fn window_start(state: BioauthNotificationState, block_number: u32) -> u32 {
    if state.last_block_number_notified == 0 {
        block_number
    } else {
        state.last_block_number_notified
    }
}

/// Whether the arithmetic of a registration stays inside the machine
/// integers: a computed alert time is not negative, and the end of the
/// throttle window is a `u32`.
pub open spec fn registrable(
    current: Option<BioauthNotificationState>,
    alert_before_expiration_in_mins: u64,
    max_message_frequency_in_blocks: u32,
    block_number: u32,
    expires_at: Option<u64>,
) -> bool {
    match (current, expires_at) {
        (None, None) => true,
        (None, Some(expires_at)) => alert_before_expiration_in_mins * LEAD_TIME_UNITS_PER_MINUTE
            <= expires_at,
        (Some(state), None) => window_start(state, block_number) + max_message_frequency_in_blocks
            <= u32::MAX,
        (Some(state), Some(expires_at)) => state.alert_at is None
            ==> alert_before_expiration_in_mins * LEAD_TIME_UNITS_PER_MINUTE <= expires_at,
    }
}

/// A chat's state after a block's observation was registered. `current` is
/// its state before, absent for a chat that is new; `expires_at` is the expiry
/// of its validator's active authentication, absent when it has none.
pub open spec fn registered(
    current: Option<BioauthNotificationState>,
    alert_before_expiration_in_mins: u64,
    max_message_frequency_in_blocks: u32,
    block_number: u32,
    expires_at: Option<u64>,
) -> BioauthNotificationState {
    let pending = BioauthNotificationState {
        alert_at: Some(
            (expires_at.unwrap() - alert_before_expiration_in_mins * LEAD_TIME_UNITS_PER_MINUTE) as u64,
        ),
        ..fresh_state()
    };
    match (current, expires_at) {
        (None, None) => fresh_state(),
        (None, Some(_)) => pending,
        (Some(state), None) => {
            let window_end = window_start(state, block_number) + max_message_frequency_in_blocks;
            if window_end < block_number {
                state
            } else {
                BioauthNotificationState { next_block_number_to_notify: window_end as u32, ..state }
            }
        },
        (Some(state), Some(_)) => if state.alert_at is None {
            pending
        } else {
            state
        },
    }
}

/// A chat's state after the notifications of a block went out.
pub open spec fn notified(
    state: BioauthNotificationState,
    block_number: u32,
) -> BioauthNotificationState {
    if state.next_block_number_to_notify > block_number {
        state
    } else {
        BioauthNotificationState { last_block_number_notified: block_number, ..state }
    }
}

/// Whether a chat's alert is due at time `now`.
pub open spec fn alert_due(state: BioauthNotificationState, now: u64) -> bool {
    state.alert_at matches Some(alert_at) && alert_at <= now
}

/// A chat's state after the alerts that were due at `now` went out.
pub open spec fn alerted(state: BioauthNotificationState, now: u64) -> BioauthNotificationState {
    if alert_due(state, now) {
        BioauthNotificationState { alert_at: None, ..state }
    } else {
        state
    }
}

/// What telling the chats whose window has opened does: the chats move from
/// `before` to `after`, and `notifications` holds a "lost" notification for
/// each of those chats, once.
pub open spec fn notifications_sent(
    before: Map<i64, BioauthNotificationState>,
    after: Map<i64, BioauthNotificationState>,
    notifications: Seq<Notification>,
    block_number: u32,
) -> bool {
    &&& after == before.map_values(|state: BioauthNotificationState| notified(state, block_number))
    &&& notifications.no_duplicates()
    &&& forall|notification: Notification| #[trigger]
        notifications.contains(notification) <==> {
            &&& notification is BioauthLostNotification
            &&& before.contains_key(notification.chat())
            &&& before[notification.chat()].next_block_number_to_notify <= block_number
        }
}

/// What sending the alerts that are due at `now` does: the chats move from
/// `before` to `after`, and `alerts` holds an alert for each chat whose alert
/// was due, once.
pub open spec fn alerts_sent(
    before: Map<i64, BioauthNotificationState>,
    after: Map<i64, BioauthNotificationState>,
    alerts: Seq<Notification>,
    now: u64,
) -> bool {
    &&& after == before.map_values(|state: BioauthNotificationState| alerted(state, now))
    &&& alerts.no_duplicates()
    &&& forall|alert: Notification| #[trigger]
        alerts.contains(alert) <==> {
            &&& alert is BioauthSoonExpiredAlert
            &&& before.contains_key(alert.chat())
            &&& alert_due(before[alert.chat()], now)
        }
}

/// The timing state of every registered chat.
#[derive(Debug)]
pub struct BioauthNotificationManager {
    map: HashMap<i64, BioauthNotificationState>,
}

impl BioauthNotificationManager {
    /// The states, by chat id.
    pub closed spec fn view(&self) -> Map<i64, BioauthNotificationState> {
        self.map@
    }

    pub fn new() -> (r: Self)
        ensures
            r@ == Map::<i64, BioauthNotificationState>::empty(),
    {
        BioauthNotificationManager { map: HashMap::new() }
    }

    /// Tests [`registrable`] for a chat.
    pub fn can_register(
        &self,
        chat_id: &i64,
        alert_before_expiration_in_mins: u64,
        max_message_frequency_in_blocks: u32,
        block_number: u32,
        expires_at: Option<&u64>,
    ) -> (ok: bool)
        ensures
            ok == registrable(
                self@.get(*chat_id),
                alert_before_expiration_in_mins,
                max_message_frequency_in_blocks,
                block_number,
                match expires_at {
                    Some(expires_at) => Some(*expires_at),
                    None => None,
                },
            ),
    {
        let fits = match expires_at {
            None => true,
            Some(expires_at) => match alert_before_expiration_in_mins.checked_mul(
                LEAD_TIME_UNITS_PER_MINUTE,
            ) {
                None => false,
                Some(lead_time) => lead_time <= *expires_at,
            },
        };
        match (self.map.get(chat_id), expires_at) {
            (None, None) => true,
            (None, Some(_)) => fits,
            (Some(state), None) => {
                let last_block = if state.last_block_number_notified == 0 {
                    block_number
                } else {
                    state.last_block_number_notified
                };
                last_block.checked_add(max_message_frequency_in_blocks).is_some()
            },
            (Some(state), Some(_)) => state.alert_at.is_some() || fits,
        }
    }

    /// Registers what a block shows of a chat's validator.
    pub fn register(
        &mut self,
        chat_id: &i64,
        alert_before_expiration_in_mins: u64,
        max_message_frequency_in_blocks: u32,
        block_number: u32,
        expires_at: Option<&u64>,
    )
        requires
            registrable(
                old(self)@.get(*chat_id),
                alert_before_expiration_in_mins,
                max_message_frequency_in_blocks,
                block_number,
                match expires_at {
                    Some(expires_at) => Some(*expires_at),
                    None => None,
                },
            ),
        ensures
            final(self)@ == old(self)@.insert(
                *chat_id,
                registered(
                    old(self)@.get(*chat_id),
                    alert_before_expiration_in_mins,
                    max_message_frequency_in_blocks,
                    block_number,
                    match expires_at {
                        Some(expires_at) => Some(*expires_at),
                        None => None,
                    },
                ),
            ),
    {
        let state = match self.map.get(chat_id) {
            Some(state) => Some(*state),
            None => None,
        };
        match (state, expires_at) {
            (None, None) => {
                self.map.insert(*chat_id, BioauthNotificationState::default());
            },
            (None, Some(expires_at)) => {
                let alert_at = Some(
                    *expires_at - alert_before_expiration_in_mins * LEAD_TIME_UNITS_PER_MINUTE,
                );
                self.map.insert(
                    *chat_id,
                    BioauthNotificationState {
                        last_block_number_notified: 0,
                        next_block_number_to_notify: 0,
                        alert_at,
                    },
                );
            },
            (Some(state), None) => {
                let last_block = if state.last_block_number_notified == 0 {
                    block_number
                } else {
                    state.last_block_number_notified
                };
                if last_block + max_message_frequency_in_blocks < block_number {
                    assert(self@ =~= old(self)@.insert(*chat_id, state));
                    return ;
                }
                self.map.insert(
                    *chat_id,
                    BioauthNotificationState {
                        next_block_number_to_notify: last_block + max_message_frequency_in_blocks,
                        ..state
                    },
                );
            },
            (Some(state), Some(expires_at)) => {
                if state.alert_at.is_none() {
                    let alert_at = Some(
                        *expires_at - alert_before_expiration_in_mins * LEAD_TIME_UNITS_PER_MINUTE,
                    );
                    self.map.insert(
                        *chat_id,
                        BioauthNotificationState {
                            last_block_number_notified: 0,
                            next_block_number_to_notify: 0,
                            alert_at,
                        },
                    );
                } else {
                    assert(self@ =~= old(self)@.insert(*chat_id, state));
                }
            },
        }
    }

    /// The "lost" notifications of this block: one for every chat whose
    /// window has opened. Each of these chats is marked as notified on this
    /// block.
    pub fn notify(&mut self, block_number: u32) -> (notifications: Vec<Notification>)
        ensures
            notifications_sent(old(self)@, final(self)@, notifications@, block_number),
    {
        let mut notifications: Vec<Notification> = Vec::new();
        let chat_ids = keys_of(&self.map);
        let mut i: usize = 0;
        while i < chat_ids.len()
            invariant
                i <= chat_ids.len(),
                chat_ids@.no_duplicates(),
                forall|chat_id: i64| chat_ids@.contains(chat_id) <==> old(self)@.contains_key(chat_id),
                self@.dom() == old(self)@.dom(),
                forall|j: int|
                    0 <= j < i ==> self@[#[trigger] chat_ids[j]] == notified(old(self)@[chat_ids[j]], block_number),
                forall|j: int|
                    i <= j < chat_ids.len() ==> self@[#[trigger] chat_ids[j]] == old(
                        self,
                    )@[chat_ids[j]],
                notifications@.len() <= i,
                forall|a: int|
                    0 <= a < notifications@.len() ==> exists|j: int|
                        0 <= j < i && old(self)@[chat_ids[j]].next_block_number_to_notify <= block_number && #[trigger] notifications@[a] == (Notification::BioauthLostNotification {
                            chat_id: chat_ids[j],
                        }),
                forall|j: int|
                    0 <= j < i && old(self)@[chat_ids[j]].next_block_number_to_notify <= block_number ==> notifications@.contains(
                        Notification::BioauthLostNotification { chat_id: #[trigger] chat_ids[j] },
                    ),
                notifications@.no_duplicates(),
            decreases chat_ids.len() - i,
        {
            let chat_id = chat_ids[i];
            assert(chat_ids@.contains(chat_id));
            let state = *self.map.get(&chat_id).unwrap();
            let ghost sent = notifications@;
            let due = state.next_block_number_to_notify <= block_number;
            if due {
                let message = Notification::BioauthLostNotification { chat_id };
                notifications.push(message);
                self.map.insert(chat_id, BioauthNotificationState { last_block_number_notified: block_number, ..state });
                proof {
                    assert forall|a: int| 0 <= a < sent.len() implies sent[a] != message by {
                        let j = choose|j: int|
                            0 <= j < i && old(self)@[chat_ids[j]].next_block_number_to_notify <= block_number && sent[a] == (Notification::BioauthLostNotification {
                                chat_id: chat_ids[j],
                            });
                        assert(chat_ids@[j] != chat_ids@[i as int]);
                    }
                    assert(notifications@[sent.len() as int] == message);
                }
            }
            proof {
                assert(self@.dom() =~= old(self)@.dom());
                assert forall|a: int| 0 <= a < notifications@.len() implies exists|j: int|
                    0 <= j < i + 1 && old(self)@[chat_ids[j]].next_block_number_to_notify <= block_number && #[trigger] notifications@[a] == (Notification::BioauthLostNotification {
                        chat_id: chat_ids[j],
                    }) by {
                    if a < sent.len() {
                        assert(notifications@[a] == sent[a]);
                        let j = choose|j: int|
                            0 <= j < i && old(self)@[chat_ids[j]].next_block_number_to_notify <= block_number && sent[a] == (Notification::BioauthLostNotification {
                                chat_id: chat_ids[j],
                            });
                        assert(0 <= j < i + 1);
                    } else {
                        assert(notifications@[a] == (Notification::BioauthLostNotification { chat_id: chat_ids[i as int] }));
                    }
                }
                assert forall|j: int| 0 <= j < i + 1 && old(self)@[chat_ids[j]].next_block_number_to_notify <= block_number implies notifications@.contains(
                    Notification::BioauthLostNotification { chat_id: #[trigger] chat_ids[j] },
                ) by {
                    if j < i {
                        let wanted = Notification::BioauthLostNotification { chat_id: chat_ids[j] };
                        assert(sent.contains(wanted));
                        let a = choose|a: int| 0 <= a < sent.len() && sent[a] == wanted;
                        assert(notifications@[a] == wanted);
                    }
                }
            }
            i = i + 1;
        }
        proof {
            assert forall|chat_id: i64| self@.contains_key(chat_id) implies #[trigger] self@[chat_id]
                == notified(old(self)@[chat_id], block_number) by {
                assert(chat_ids@.contains(chat_id));
                let j = choose|j: int| 0 <= j < chat_ids@.len() && chat_ids@[j] == chat_id;
                assert(chat_ids[j] == chat_id);
            }
            assert(self@ =~= old(self)@.map_values(|state: BioauthNotificationState| notified(state, block_number)));
            assert forall|message: Notification| #[trigger]
                notifications@.contains(message) <==> {
                    &&& message is BioauthLostNotification
                    &&& old(self)@.contains_key(message.chat())
                    &&& old(self)@[message.chat()].next_block_number_to_notify <= block_number
                } by {
                if notifications@.contains(message) {
                    let a = choose|a: int| 0 <= a < notifications@.len() && notifications@[a] == message;
                    let j = choose|j: int|
                        0 <= j < i && old(self)@[chat_ids[j]].next_block_number_to_notify <= block_number && notifications@[a] == (Notification::BioauthLostNotification {
                            chat_id: chat_ids[j],
                        });
                    assert(chat_ids@.contains(chat_ids@[j]));
                }
                if message is BioauthLostNotification && old(self)@.contains_key(message.chat()) && old(self)@[message.chat()].next_block_number_to_notify <= block_number {
                    let chat_id = message.chat();
                    assert(chat_ids@.contains(chat_id));
                    let j = choose|j: int| 0 <= j < chat_ids@.len() && chat_ids@[j] == chat_id;
                    assert(chat_ids[j] == chat_id);
                }
            }
        }
        notifications
    }

    /// The alerts that are due at time `now`: one for every chat with an
    /// alert pending for `now` or earlier. Each of these chats has no alert
    /// pending afterwards.
    pub fn alert_as_of(&mut self, now: u64) -> (alerts: Vec<Notification>)
        ensures
            alerts_sent(old(self)@, final(self)@, alerts@, now),
    {
        let mut alerts: Vec<Notification> = Vec::new();
        let chat_ids = keys_of(&self.map);
        let mut i: usize = 0;
        while i < chat_ids.len()
            invariant
                i <= chat_ids.len(),
                chat_ids@.no_duplicates(),
                forall|chat_id: i64| chat_ids@.contains(chat_id) <==> old(self)@.contains_key(chat_id),
                self@.dom() == old(self)@.dom(),
                forall|j: int|
                    0 <= j < i ==> self@[#[trigger] chat_ids[j]] == alerted(old(self)@[chat_ids[j]], now),
                forall|j: int|
                    i <= j < chat_ids.len() ==> self@[#[trigger] chat_ids[j]] == old(
                        self,
                    )@[chat_ids[j]],
                alerts@.len() <= i,
                forall|a: int|
                    0 <= a < alerts@.len() ==> exists|j: int|
                        0 <= j < i && alert_due(old(self)@[chat_ids[j]], now) && #[trigger] alerts@[a] == (Notification::BioauthSoonExpiredAlert {
                            chat_id: chat_ids[j],
                        }),
                forall|j: int|
                    0 <= j < i && alert_due(old(self)@[chat_ids[j]], now) ==> alerts@.contains(
                        Notification::BioauthSoonExpiredAlert { chat_id: #[trigger] chat_ids[j] },
                    ),
                alerts@.no_duplicates(),
            decreases chat_ids.len() - i,
        {
            let chat_id = chat_ids[i];
            assert(chat_ids@.contains(chat_id));
            let state = *self.map.get(&chat_id).unwrap();
            let ghost sent = alerts@;
            let due = match state.alert_at {
                None => false,
                Some(alert_at) => alert_at <= now,
            };
            if due {
                let message = Notification::BioauthSoonExpiredAlert { chat_id };
                alerts.push(message);
                self.map.insert(chat_id, BioauthNotificationState { alert_at: None, ..state });
                proof {
                    assert forall|a: int| 0 <= a < sent.len() implies sent[a] != message by {
                        let j = choose|j: int|
                            0 <= j < i && alert_due(old(self)@[chat_ids[j]], now) && sent[a] == (Notification::BioauthSoonExpiredAlert {
                                chat_id: chat_ids[j],
                            });
                        assert(chat_ids@[j] != chat_ids@[i as int]);
                    }
                    assert(alerts@[sent.len() as int] == message);
                }
            }
            proof {
                assert(self@.dom() =~= old(self)@.dom());
                assert forall|a: int| 0 <= a < alerts@.len() implies exists|j: int|
                    0 <= j < i + 1 && alert_due(old(self)@[chat_ids[j]], now) && #[trigger] alerts@[a] == (Notification::BioauthSoonExpiredAlert {
                        chat_id: chat_ids[j],
                    }) by {
                    if a < sent.len() {
                        assert(alerts@[a] == sent[a]);
                        let j = choose|j: int|
                            0 <= j < i && alert_due(old(self)@[chat_ids[j]], now) && sent[a] == (Notification::BioauthSoonExpiredAlert {
                                chat_id: chat_ids[j],
                            });
                        assert(0 <= j < i + 1);
                    } else {
                        assert(alerts@[a] == (Notification::BioauthSoonExpiredAlert { chat_id: chat_ids[i as int] }));
                    }
                }
                assert forall|j: int| 0 <= j < i + 1 && alert_due(old(self)@[chat_ids[j]], now) implies alerts@.contains(
                    Notification::BioauthSoonExpiredAlert { chat_id: #[trigger] chat_ids[j] },
                ) by {
                    if j < i {
                        let wanted = Notification::BioauthSoonExpiredAlert { chat_id: chat_ids[j] };
                        assert(sent.contains(wanted));
                        let a = choose|a: int| 0 <= a < sent.len() && sent[a] == wanted;
                        assert(alerts@[a] == wanted);
                    }
                }
            }
            i = i + 1;
        }
        proof {
            assert forall|chat_id: i64| self@.contains_key(chat_id) implies #[trigger] self@[chat_id]
                == alerted(old(self)@[chat_id], now) by {
                assert(chat_ids@.contains(chat_id));
                let j = choose|j: int| 0 <= j < chat_ids@.len() && chat_ids@[j] == chat_id;
                assert(chat_ids[j] == chat_id);
            }
            assert(self@ =~= old(self)@.map_values(|state: BioauthNotificationState| alerted(state, now)));
            assert forall|message: Notification| #[trigger]
                alerts@.contains(message) <==> {
                    &&& message is BioauthSoonExpiredAlert
                    &&& old(self)@.contains_key(message.chat())
                    &&& alert_due(old(self)@[message.chat()], now)
                } by {
                if alerts@.contains(message) {
                    let a = choose|a: int| 0 <= a < alerts@.len() && alerts@[a] == message;
                    let j = choose|j: int|
                        0 <= j < i && alert_due(old(self)@[chat_ids[j]], now) && alerts@[a] == (Notification::BioauthSoonExpiredAlert {
                            chat_id: chat_ids[j],
                        });
                    assert(chat_ids@.contains(chat_ids@[j]));
                }
                if message is BioauthSoonExpiredAlert && old(self)@.contains_key(message.chat()) && alert_due(old(self)@[message.chat()], now) {
                    let chat_id = message.chat();
                    assert(chat_ids@.contains(chat_id));
                    let j = choose|j: int| 0 <= j < chat_ids@.len() && chat_ids@[j] == chat_id;
                    assert(chat_ids[j] == chat_id);
                }
            }
        }
        alerts
    }

    /// The alerts that are due at the time that the system clock shows.
    pub fn alert(&mut self) -> (alerts: Vec<Notification>)
        ensures
            exists|now: u64| alerts_sent(old(self)@, final(self)@, alerts@, now),
    {
        let timestamp = unix_time_secs();
        self.alert_as_of(timestamp)
    }
}

} // verus!
