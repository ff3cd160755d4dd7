use biostatus::bioauth_logic::bioauth_subscription_map::BioauthNotificationState;
use biostatus::bioauth_logic::evaluation::{can_evaluate, evaluate, LEAD_TIME_UNITS_PER_MINUTE};
use biostatus::bioauth_logic::Notification;
use biostatus::bioauth_settings::BioauthSettings;

fn settings(blocks: u32, mins: u64) -> BioauthSettings {
    BioauthSettings { max_message_frequency_in_blocks: blocks, alert_before_expiration_in_mins: mins }
}

#[test]
fn lead_time_unit_is_sixty_thousand_per_minute() {
    assert_eq!(LEAD_TIME_UNITS_PER_MINUTE, 60000);
}

#[test]
fn throttle_window_ends_exactly_at_block_plus_frequency() {
    let mut state = BioauthNotificationState::default();
    let sent = evaluate(&mut state, 'k', 4, 100, None, &settings(7, 60), 0);
    assert_eq!(sent, Some(Notification::BioauthLostNotification { chat_id: 4, bioauth_public_key: 'k' }));
    let notified = state;
    assert_eq!(
        notified,
        BioauthNotificationState {
            last_block_number_notified: 100,
            next_block_number_to_notify: 107,
            alerted_at: None
        }
    );
    for block in 101u32..107 {
        assert_eq!(evaluate(&mut state, 'k', 4, block, None, &settings(7, 60), 0), None);
        assert_eq!(state, notified);
    }
    let sent = evaluate(&mut state, 'k', 4, 107, None, &settings(7, 60), 0);
    assert_eq!(sent, Some(Notification::BioauthLostNotification { chat_id: 4, bioauth_public_key: 'k' }));
    assert_eq!(state.last_block_number_notified, 107);
    assert_eq!(state.next_block_number_to_notify, 114);
}

#[test]
fn lost_notification_keeps_the_last_alert() {
    let mut state = BioauthNotificationState {
        last_block_number_notified: 0,
        next_block_number_to_notify: 0,
        alerted_at: Some(55),
    };
    evaluate(&mut state, 0u8, 1, 9, None, &settings(10, 60), 1000);
    assert_eq!(state.alerted_at, Some(55));
}

#[test]
fn alert_with_a_later_last_alert_waits_for_it() {
    // Threshold 1_000_000 - 60_000 = 940_000; the last alert was at 950_000.
    let mut state = BioauthNotificationState {
        last_block_number_notified: 3,
        next_block_number_to_notify: 13,
        alerted_at: Some(950_000),
    };
    assert_eq!(evaluate(&mut state, 0u8, 1, 9, Some(1_000_000), &settings(10, 1), 949_999), None);
    assert_eq!(state.alerted_at, Some(950_000));
    let sent = evaluate(&mut state, 0u8, 1, 9, Some(1_000_000), &settings(10, 1), 950_000);
    assert_eq!(sent, Some(Notification::BioauthSoonExpiredAlert { chat_id: 1, bioauth_public_key: 0u8 }));
    assert_eq!(
        state,
        BioauthNotificationState {
            last_block_number_notified: 3,
            next_block_number_to_notify: 13,
            alerted_at: Some(950_000)
        }
    );
}

#[test]
fn can_evaluate_tells_when_the_arithmetic_fits() {
    let fresh = BioauthNotificationState::default();
    assert!(can_evaluate(&fresh, u32::MAX, None, &settings(0, 60)));
    assert!(!can_evaluate(&fresh, u32::MAX, None, &settings(1, 60)));
    let throttled = BioauthNotificationState {
        last_block_number_notified: 1,
        next_block_number_to_notify: u32::MAX,
        alerted_at: None,
    };
    assert!(can_evaluate(&throttled, u32::MAX - 1, None, &settings(100, 60)));
    assert!(!can_evaluate(&throttled, u32::MAX, None, &settings(100, 60)));
    assert!(can_evaluate(&fresh, 1, Some(120_000), &settings(10, 2)));
    assert!(!can_evaluate(&fresh, 1, Some(119_999), &settings(10, 2)));
    assert!(!can_evaluate(&fresh, 1, Some(u64::MAX), &settings(10, u64::MAX / 60000 + 1)));
    assert!(can_evaluate(&fresh, 1, Some(0), &settings(10, 0)));
}
