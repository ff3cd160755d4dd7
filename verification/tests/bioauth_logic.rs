use biostatus::bioauth_logic::bioauth_subscription_map::BioauthNotificationState;
use biostatus::bioauth_logic::{
    BioauthLogic, FailedNotification, InitParamBioauth, InitParams, NewBlockParams, Notification,
    UpdateSubscriptionParams,
};
use biostatus::bioauth_settings::{BioauthSettings, BioauthSettingsMap};
use std::collections::HashMap;
use std::time::{SystemTime, UNIX_EPOCH};

#[test]
fn process_block() {
    let mut logic = BioauthLogic::<usize>::init(InitParams { bioauths: vec![] });
    let bioauth_settings_map = BioauthSettingsMap::new();
    let mut active_authentications_map = HashMap::new();

    let start = SystemTime::now();
    let since_the_epoch = start
        .duration_since(UNIX_EPOCH)
        .expect("Time went backwards");
    let timestamp = since_the_epoch.as_secs();

    let notifications = logic.new_block(NewBlockParams {
        block_number: 1,
        active_authentications_map: &active_authentications_map,
        bioauth_settings_map: &bioauth_settings_map,
    });

    assert_eq!(notifications.len(), 0);

    let bioauth_public_key_0 = 0;
    let t_chat_id_0 = 0;

    logic.update_subscription(UpdateSubscriptionParams {
        bioauth_public_key: bioauth_public_key_0,
        t_chat_id: t_chat_id_0,
    });

    let notifications = logic.new_block(NewBlockParams {
        block_number: 2,
        active_authentications_map: &active_authentications_map,
        bioauth_settings_map: &bioauth_settings_map,
    });

    assert_eq!(notifications.len(), 1);

    for notification in notifications {
        match notification {
            Notification::BioauthLostNotification { chat_id, .. } => {
                assert_eq!(chat_id, t_chat_id_0);
            }
            _ => panic!(),
        }
    }

    active_authentications_map.insert(0, timestamp + 1000 * 60000);

    let notifications = logic.new_block(NewBlockParams {
        block_number: 3,
        active_authentications_map: &active_authentications_map,
        bioauth_settings_map: &bioauth_settings_map,
    });

    assert_eq!(notifications.len(), 0);

    active_authentications_map.insert(0, timestamp);

    let notifications = logic.new_block(NewBlockParams {
        block_number: 3,
        active_authentications_map: &active_authentications_map,
        bioauth_settings_map: &bioauth_settings_map,
    });

    assert_eq!(notifications.len(), 1);

    for notification in notifications {
        match notification {
            Notification::BioauthSoonExpiredAlert { chat_id, .. } => {
                assert_eq!(chat_id, t_chat_id_0);
            }
            _ => panic!(),
        }
    }
}

fn state_of(logic: &BioauthLogic<[u8; 32]>, key: [u8; 32], chat: i64) -> BioauthNotificationState {
    logic.bioauth_subscription_map.state(&key, chat).unwrap()
}

#[test]
fn lost_notification_is_throttled_by_the_default_window() {
    let key = [7u8; 32];
    let mut logic = BioauthLogic::init(InitParams { bioauths: vec![] });
    logic.update_subscription(UpdateSubscriptionParams { t_chat_id: 1, bioauth_public_key: key });
    let settings = BioauthSettingsMap::new();
    let active: HashMap<[u8; 32], u64> = HashMap::new();

    let sent = logic.new_block_at(
        NewBlockParams { block_number: 1, active_authentications_map: &active, bioauth_settings_map: &settings },
        1_700_000_000,
    );
    assert_eq!(
        sent,
        vec![Notification::BioauthLostNotification { chat_id: 1, bioauth_public_key: key }]
    );
    assert_eq!(
        state_of(&logic, key, 1),
        BioauthNotificationState {
            last_block_number_notified: 1,
            next_block_number_to_notify: 11,
            alerted_at: None
        }
    );

    let sent = logic.new_block_at(
        NewBlockParams { block_number: 5, active_authentications_map: &active, bioauth_settings_map: &settings },
        1_700_000_024,
    );
    assert_eq!(sent, vec![]);
    assert_eq!(state_of(&logic, key, 1).next_block_number_to_notify, 11);

    let sent = logic.new_block_at(
        NewBlockParams { block_number: 11, active_authentications_map: &active, bioauth_settings_map: &settings },
        1_700_000_060,
    );
    assert_eq!(
        sent,
        vec![Notification::BioauthLostNotification { chat_id: 1, bioauth_public_key: key }]
    );
    assert_eq!(
        state_of(&logic, key, 1),
        BioauthNotificationState {
            last_block_number_notified: 11,
            next_block_number_to_notify: 21,
            alerted_at: None
        }
    );
}

#[test]
fn failed_lost_notification_is_retried_on_the_next_block() {
    let key_a = [1u8; 32];
    let key_b = [2u8; 32];
    let mut logic = BioauthLogic::init(InitParams {
        bioauths: vec![
            InitParamBioauth { bioauth_public_key: key_a, t_chat_id: 5 },
            InitParamBioauth { bioauth_public_key: key_b, t_chat_id: 5 },
            InitParamBioauth { bioauth_public_key: key_a, t_chat_id: 6 },
        ],
    });
    let mut settings = BioauthSettingsMap::new();
    settings.update((5, key_a), BioauthSettings { max_message_frequency_in_blocks: 100, alert_before_expiration_in_mins: 60 });
    let active: HashMap<[u8; 32], u64> = HashMap::new();

    let sent = logic.new_block_at(
        NewBlockParams { block_number: 40, active_authentications_map: &active, bioauth_settings_map: &settings },
        0,
    );
    assert_eq!(sent.len(), 3);
    assert_eq!(state_of(&logic, key_a, 5).next_block_number_to_notify, 140);
    assert_eq!(state_of(&logic, key_b, 5).next_block_number_to_notify, 50);

    logic.communicate_notification_failures(&[FailedNotification::BioauthLostNotificationFailed {
        chat_id: 5,
    }]);
    assert_eq!(state_of(&logic, key_a, 5), BioauthNotificationState::default());
    assert_eq!(state_of(&logic, key_b, 5), BioauthNotificationState::default());
    assert_eq!(state_of(&logic, key_a, 6).next_block_number_to_notify, 50);

    let mut sent = logic.new_block_at(
        NewBlockParams { block_number: 41, active_authentications_map: &active, bioauth_settings_map: &settings },
        0,
    );
    sent.sort_by_key(|n| match n {
        Notification::BioauthLostNotification { bioauth_public_key, .. } => bioauth_public_key[0],
        Notification::BioauthSoonExpiredAlert { bioauth_public_key, .. } => bioauth_public_key[0],
    });
    assert_eq!(
        sent,
        vec![
            Notification::BioauthLostNotification { chat_id: 5, bioauth_public_key: key_a },
            Notification::BioauthLostNotification { chat_id: 5, bioauth_public_key: key_b },
        ]
    );
}

#[test]
fn alert_goes_out_once_the_threshold_is_reached() {
    let key = [9u8; 32];
    let mut logic = BioauthLogic::init(InitParams { bioauths: vec![] });
    logic.update_subscription(UpdateSubscriptionParams { t_chat_id: 1, bioauth_public_key: key });
    let settings = BioauthSettingsMap::new();
    let now: u64 = 1_700_000_000;
    let mut active: HashMap<[u8; 32], u64> = HashMap::new();

    active.insert(key, now + 1000 * 60000);
    let sent = logic.new_block_at(
        NewBlockParams { block_number: 1, active_authentications_map: &active, bioauth_settings_map: &settings },
        now,
    );
    assert_eq!(sent, vec![]);
    assert_eq!(state_of(&logic, key, 1), BioauthNotificationState::default());

    active.insert(key, now);
    let sent = logic.new_block_at(
        NewBlockParams { block_number: 2, active_authentications_map: &active, bioauth_settings_map: &settings },
        now,
    );
    assert_eq!(
        sent,
        vec![Notification::BioauthSoonExpiredAlert { chat_id: 1, bioauth_public_key: key }]
    );
    assert_eq!(state_of(&logic, key, 1).alerted_at, Some(now));

    // While the clock reads earlier than the alert, nothing more goes out.
    let sent = logic.new_block_at(
        NewBlockParams { block_number: 3, active_authentications_map: &active, bioauth_settings_map: &settings },
        now - 1,
    );
    assert_eq!(sent, vec![]);
    assert_eq!(state_of(&logic, key, 1).alerted_at, Some(now));

    // From the time of the alert on, the threshold is that time, and it is reached.
    let sent = logic.new_block_at(
        NewBlockParams { block_number: 4, active_authentications_map: &active, bioauth_settings_map: &settings },
        now,
    );
    assert_eq!(
        sent,
        vec![Notification::BioauthSoonExpiredAlert { chat_id: 1, bioauth_public_key: key }]
    );
    assert_eq!(state_of(&logic, key, 1).alerted_at, Some(now));
    let sent = logic.new_block_at(
        NewBlockParams { block_number: 5, active_authentications_map: &active, bioauth_settings_map: &settings },
        now + 6,
    );
    assert_eq!(
        sent,
        vec![Notification::BioauthSoonExpiredAlert { chat_id: 1, bioauth_public_key: key }]
    );
    assert_eq!(state_of(&logic, key, 1).alerted_at, Some(now + 6));
}

#[test]
fn alert_threshold_is_expiry_less_lead_time() {
    let key = 3u64;
    let mut logic = BioauthLogic::init(InitParams {
        bioauths: vec![InitParamBioauth { bioauth_public_key: key, t_chat_id: 8 }],
    });
    let mut settings = BioauthSettingsMap::new();
    settings.update_alert_before_expiration_in_mins((8, key), 2);
    let mut active: HashMap<u64, u64> = HashMap::new();
    active.insert(key, 500_000);

    // 500_000 - 2 * 60_000 = 380_000
    let sent = logic.new_block_at(
        NewBlockParams { block_number: 1, active_authentications_map: &active, bioauth_settings_map: &settings },
        379_999,
    );
    assert_eq!(sent, vec![]);
    let sent = logic.new_block_at(
        NewBlockParams { block_number: 2, active_authentications_map: &active, bioauth_settings_map: &settings },
        380_000,
    );
    assert_eq!(
        sent,
        vec![Notification::BioauthSoonExpiredAlert { chat_id: 8, bioauth_public_key: key }]
    );
    let state = logic.bioauth_subscription_map.state(&key, 8).unwrap();
    assert_eq!(
        state,
        BioauthNotificationState {
            last_block_number_notified: 0,
            next_block_number_to_notify: 0,
            alerted_at: Some(380_000)
        }
    );
}

#[test]
fn alert_is_armed_again_when_the_expiry_moves_out() {
    let key = 3u64;
    let mut logic = BioauthLogic::init(InitParams {
        bioauths: vec![InitParamBioauth { bioauth_public_key: key, t_chat_id: 8 }],
    });
    let settings = BioauthSettingsMap::new();
    let mut active: HashMap<u64, u64> = HashMap::new();

    // Lead time 60 * 60_000 = 3_600_000; threshold 400_000.
    active.insert(key, 4_000_000);
    let sent = logic.new_block_at(
        NewBlockParams { block_number: 1, active_authentications_map: &active, bioauth_settings_map: &settings },
        400_000,
    );
    assert_eq!(sent.len(), 1);

    // The expiry moved out: threshold 900_000, later than the last alert.
    active.insert(key, 4_500_000);
    let sent = logic.new_block_at(
        NewBlockParams { block_number: 2, active_authentications_map: &active, bioauth_settings_map: &settings },
        899_999,
    );
    assert_eq!(sent, vec![]);
    assert_eq!(logic.bioauth_subscription_map.state(&key, 8).unwrap().alerted_at, Some(400_000));

    let sent = logic.new_block_at(
        NewBlockParams { block_number: 3, active_authentications_map: &active, bioauth_settings_map: &settings },
        900_000,
    );
    assert_eq!(
        sent,
        vec![Notification::BioauthSoonExpiredAlert { chat_id: 8, bioauth_public_key: key }]
    );
    assert_eq!(logic.bioauth_subscription_map.state(&key, 8).unwrap().alerted_at, Some(900_000));
}

#[test]
fn failed_alert_forgets_the_last_alert() {
    let key = 3u64;
    let mut logic = BioauthLogic::init(InitParams {
        bioauths: vec![
            InitParamBioauth { bioauth_public_key: key, t_chat_id: 8 },
            InitParamBioauth { bioauth_public_key: key, t_chat_id: 9 },
        ],
    });
    let settings = BioauthSettingsMap::new();
    let mut active: HashMap<u64, u64> = HashMap::new();
    active.insert(key, 4_000_000);
    let sent = logic.new_block_at(
        NewBlockParams { block_number: 1, active_authentications_map: &active, bioauth_settings_map: &settings },
        500_000,
    );
    assert_eq!(sent.len(), 2);

    logic.communicate_notification_failures(&[
        FailedNotification::BioauthSoonExpiredAlertFailed { chat_id: 8 },
    ]);
    assert_eq!(logic.bioauth_subscription_map.state(&key, 8).unwrap().alerted_at, None);
    assert_eq!(logic.bioauth_subscription_map.state(&key, 9).unwrap().alerted_at, Some(500_000));

    // Chat 8 is alerted again though the clock reads earlier than its last alert.
    let sent = logic.new_block_at(
        NewBlockParams { block_number: 2, active_authentications_map: &active, bioauth_settings_map: &settings },
        450_000,
    );
    assert_eq!(
        sent,
        vec![Notification::BioauthSoonExpiredAlert { chat_id: 8, bioauth_public_key: key }]
    );
}

#[test]
fn first_notification_is_immediate_at_any_block() {
    let mut logic =
        BioauthLogic::init(InitParams { bioauths: vec![InitParamBioauth { bioauth_public_key: 1u32, t_chat_id: 2 }] });
    let settings = BioauthSettingsMap::new();
    let active: HashMap<u32, u64> = HashMap::new();
    let sent = logic.new_block_at(
        NewBlockParams { block_number: 4_000_000_000, active_authentications_map: &active, bioauth_settings_map: &settings },
        0,
    );
    assert_eq!(
        sent,
        vec![Notification::BioauthLostNotification { chat_id: 2, bioauth_public_key: 1u32 }]
    );
    assert_eq!(
        logic.bioauth_subscription_map.state(&1u32, 2).unwrap(),
        BioauthNotificationState {
            last_block_number_notified: 4_000_000_000,
            next_block_number_to_notify: 4_000_000_010,
            alerted_at: None
        }
    );
}

#[test]
fn zero_frequency_notifies_on_every_block() {
    let mut logic =
        BioauthLogic::init(InitParams { bioauths: vec![InitParamBioauth { bioauth_public_key: 1u32, t_chat_id: 2 }] });
    let mut settings = BioauthSettingsMap::new();
    settings.update_max_message_frequency_in_blocks((2, 1u32), 0);
    let active: HashMap<u32, u64> = HashMap::new();
    for block_number in [7u32, 8, 9] {
        let sent = logic.new_block_at(
            NewBlockParams { block_number, active_authentications_map: &active, bioauth_settings_map: &settings },
            0,
        );
        assert_eq!(sent.len(), 1);
        assert_eq!(
            logic.bioauth_subscription_map.state(&1u32, 2).unwrap().next_block_number_to_notify,
            block_number
        );
    }
}

#[test]
fn can_process_refuses_a_block_whose_window_does_not_fit() {
    let mut logic =
        BioauthLogic::init(InitParams { bioauths: vec![InitParamBioauth { bioauth_public_key: 1u32, t_chat_id: 2 }] });
    let settings = BioauthSettingsMap::new();
    let active: HashMap<u32, u64> = HashMap::new();
    let fits = NewBlockParams {
        block_number: u32::MAX - 10,
        active_authentications_map: &active,
        bioauth_settings_map: &settings,
    };
    assert!(logic.can_process(&fits));
    let too_late = NewBlockParams {
        block_number: u32::MAX - 9,
        active_authentications_map: &active,
        bioauth_settings_map: &settings,
    };
    assert!(!logic.can_process(&too_late));

    // Inside a throttle window nothing is added, so the block can be processed.
    let sent = logic.new_block_at(fits, 0);
    assert_eq!(sent.len(), 1);
    let inside = NewBlockParams {
        block_number: u32::MAX - 5,
        active_authentications_map: &active,
        bioauth_settings_map: &settings,
    };
    assert!(logic.can_process(&inside));
    assert_eq!(logic.new_block_at(inside, 0), vec![]);
}

#[test]
fn can_process_refuses_a_lead_time_longer_than_the_expiry() {
    let logic =
        BioauthLogic::init(InitParams { bioauths: vec![InitParamBioauth { bioauth_public_key: 1u32, t_chat_id: 2 }] });
    let settings = BioauthSettingsMap::new();
    let mut active: HashMap<u32, u64> = HashMap::new();
    active.insert(1u32, 3_599_999);
    assert!(!logic.can_process(&NewBlockParams {
        block_number: 1,
        active_authentications_map: &active,
        bioauth_settings_map: &settings,
    }));
    active.insert(1u32, 3_600_000);
    assert!(logic.can_process(&NewBlockParams {
        block_number: 1,
        active_authentications_map: &active,
        bioauth_settings_map: &settings,
    }));
    let mut long_lead = BioauthSettingsMap::new();
    long_lead.update_alert_before_expiration_in_mins((2, 1u32), u64::MAX);
    active.insert(1u32, u64::MAX);
    assert!(!logic.can_process(&NewBlockParams {
        block_number: 1,
        active_authentications_map: &active,
        bioauth_settings_map: &long_lead,
    }));
}

#[test]
fn unsubscribed_pairing_gets_nothing_and_comes_back_fresh() {
    let key = [4u8; 32];
    let mut logic = BioauthLogic::init(InitParams {
        bioauths: vec![InitParamBioauth { bioauth_public_key: key, t_chat_id: 2 }],
    });
    let settings = BioauthSettingsMap::new();
    let active: HashMap<[u8; 32], u64> = HashMap::new();
    let sent = logic.new_block_at(
        NewBlockParams { block_number: 3, active_authentications_map: &active, bioauth_settings_map: &settings },
        0,
    );
    assert_eq!(sent.len(), 1);
    assert_eq!(state_of(&logic, key, 2).next_block_number_to_notify, 13);

    // Subscribing again keeps the state.
    logic.update_subscription(UpdateSubscriptionParams { t_chat_id: 2, bioauth_public_key: key });
    assert_eq!(state_of(&logic, key, 2).next_block_number_to_notify, 13);

    logic.remove_subscription(UpdateSubscriptionParams { t_chat_id: 2, bioauth_public_key: key });
    assert_eq!(logic.bioauth_subscription_map.state(&key, 2), None);
    assert_eq!(logic.bioauth_subscription_map.pairings(), vec![]);
    let sent = logic.new_block_at(
        NewBlockParams { block_number: 20, active_authentications_map: &active, bioauth_settings_map: &settings },
        0,
    );
    assert_eq!(sent, vec![]);

    logic.update_subscription(UpdateSubscriptionParams { t_chat_id: 2, bioauth_public_key: key });
    assert_eq!(state_of(&logic, key, 2), BioauthNotificationState::default());
}

#[test]
fn remove_all_subscription_leaves_the_keys_in_place() {
    let mut logic = BioauthLogic::init(InitParams {
        bioauths: vec![
            InitParamBioauth { bioauth_public_key: 1u8, t_chat_id: 2 },
            InitParamBioauth { bioauth_public_key: 2u8, t_chat_id: 2 },
            InitParamBioauth { bioauth_public_key: 2u8, t_chat_id: 3 },
        ],
    });
    logic.remove_all_subscription(2);
    let mut pairings = logic.bioauth_subscription_map.pairings();
    pairings.sort();
    assert_eq!(pairings, vec![(2u8, 3)]);
    assert_eq!(logic.bioauth_subscription_map.get(&1u8).map(|chats| chats.len()), Some(0));
    assert_eq!(logic.bioauth_subscription_map.get(&2u8).map(|chats| chats.len()), Some(1));
    assert!(logic.bioauth_subscription_map.get(&3u8).is_none());
}

#[test]
fn failure_report_names_chat_and_kind() {
    let lost = Notification::BioauthLostNotification { chat_id: 12, bioauth_public_key: [0u8; 32] };
    assert_eq!(lost.failed(), FailedNotification::BioauthLostNotificationFailed { chat_id: 12 });
    let alert = Notification::BioauthSoonExpiredAlert { chat_id: -3, bioauth_public_key: [0u8; 32] };
    assert_eq!(alert.failed(), FailedNotification::BioauthSoonExpiredAlertFailed { chat_id: -3 });
}

#[test]
fn failure_batches_taken_in_turn_or_at_once_agree() {
    let seed = || {
        let mut logic = BioauthLogic::init(InitParams {
            bioauths: vec![
                InitParamBioauth { bioauth_public_key: 1u8, t_chat_id: 2 },
                InitParamBioauth { bioauth_public_key: 1u8, t_chat_id: 3 },
            ],
        });
        for chat in [2, 3] {
            logic.bioauth_subscription_map.set_state(
                1u8,
                chat,
                BioauthNotificationState {
                    last_block_number_notified: 5,
                    next_block_number_to_notify: 15,
                    alerted_at: Some(77),
                },
            );
        }
        logic
    };
    let first = [FailedNotification::BioauthLostNotificationFailed { chat_id: 2 }];
    let second = [FailedNotification::BioauthSoonExpiredAlertFailed { chat_id: 2 }];
    let mut in_turn = seed();
    in_turn.communicate_notification_failures(&first);
    in_turn.communicate_notification_failures(&second);
    let mut at_once = seed();
    at_once.communicate_notification_failures(&[first[0], second[0]]);
    for chat in [2, 3] {
        assert_eq!(
            in_turn.bioauth_subscription_map.state(&1u8, chat),
            at_once.bioauth_subscription_map.state(&1u8, chat)
        );
    }
    assert_eq!(in_turn.bioauth_subscription_map.state(&1u8, 2), Some(BioauthNotificationState::default()));
    assert_eq!(
        in_turn.bioauth_subscription_map.state(&1u8, 3),
        Some(BioauthNotificationState {
            last_block_number_notified: 5,
            next_block_number_to_notify: 15,
            alerted_at: Some(77)
        })
    );
}

#[test]
fn notifications_come_in_the_order_of_the_pairings() {
    let mut logic = BioauthLogic::init(InitParams { bioauths: vec![] });
    for key in 0u16..12 {
        for chat in 0..3 {
            logic.update_subscription(UpdateSubscriptionParams { t_chat_id: chat, bioauth_public_key: key });
        }
    }
    let settings = BioauthSettingsMap::new();
    let mut active: HashMap<u16, u64> = HashMap::new();
    for key in 0u16..12 {
        if key % 3 == 0 {
            active.insert(key, 5_000_000);
        }
    }
    let order = logic.bioauth_subscription_map.pairings();
    assert_eq!(order.len(), 36);
    // Keys 0, 3, 6 and 9 are active; at 1_399_999 their alert is not due yet.
    let sent = logic.new_block_at(
        NewBlockParams { block_number: 1, active_authentications_map: &active, bioauth_settings_map: &settings },
        1_399_999,
    );
    let expected: Vec<Notification<u16>> = order
        .iter()
        .filter(|(key, _)| key % 3 != 0)
        .map(|(key, chat)| Notification::BioauthLostNotification { chat_id: *chat, bioauth_public_key: *key })
        .collect();
    assert_eq!(sent, expected);

    // One block and one time unit later the alerts are due, and the others are throttled.
    let order = logic.bioauth_subscription_map.pairings();
    let sent = logic.new_block_at(
        NewBlockParams { block_number: 2, active_authentications_map: &active, bioauth_settings_map: &settings },
        1_400_000,
    );
    let expected: Vec<Notification<u16>> = order
        .iter()
        .filter(|(key, _)| key % 3 == 0)
        .map(|(key, chat)| Notification::BioauthSoonExpiredAlert { chat_id: *chat, bioauth_public_key: *key })
        .collect();
    assert_eq!(sent, expected);
}
