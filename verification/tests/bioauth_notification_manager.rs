use biostatus::bioauth_notification_manager::{BioauthNotificationManager, BioauthNotificationState};
use biostatus::channel_messages::Notification;
use std::time::SystemTime;

fn lost(chat_id: i64) -> Notification {
    Notification::BioauthLostNotification { chat_id }
}

fn soon_expired(chat_id: i64) -> Notification {
    Notification::BioauthSoonExpiredAlert { chat_id }
}

fn chats_of(mut notifications: Vec<Notification>) -> Vec<i64> {
    notifications.sort_by_key(|notification| match notification {
        Notification::BioauthLostNotification { chat_id } => *chat_id,
        Notification::BioauthSoonExpiredAlert { chat_id } => *chat_id,
    });
    notifications
        .iter()
        .map(|notification| match notification {
            Notification::BioauthLostNotification { chat_id } => *chat_id,
            Notification::BioauthSoonExpiredAlert { chat_id } => *chat_id,
        })
        .collect()
}

#[test]
fn bioauth_notification_manager_initializing_chat() {
    let mut bioauth_notification_manager = BioauthNotificationManager::new();
    let chat_id = 1;
    bioauth_notification_manager.register(&chat_id, 60, 10, 0, None);

    let mut sent = bioauth_notification_manager.notify(0);

    let notification = sent.pop().unwrap();
    match notification {
        Notification::BioauthLostNotification {
            chat_id: notifying_chat_id,
        } => {
            assert_eq!(notifying_chat_id, chat_id);
        }
        _ => {
            panic!();
        }
    }
}

#[test]
fn chat_notification() {
    let mut bioauth_notification_manager = BioauthNotificationManager::new();
    let chat_id = 1;
    let mut block_number = 1;

    bioauth_notification_manager.register(&chat_id, 60, 10, block_number, None);

    assert_eq!(bioauth_notification_manager.notify(block_number), vec![lost(chat_id)]);

    block_number += 1;
    bioauth_notification_manager.register(&chat_id, 60, 10, block_number, None);
    assert_eq!(bioauth_notification_manager.notify(block_number), vec![]);

    block_number += 8;
    bioauth_notification_manager.register(&chat_id, 60, 10, block_number, None);
    assert_eq!(bioauth_notification_manager.notify(block_number), vec![]);

    block_number += 1;
    bioauth_notification_manager.register(&chat_id, 60, 10, block_number, None);
    assert_eq!(bioauth_notification_manager.notify(block_number), vec![lost(chat_id)]);
}

#[test]
fn chat_alert() {
    let mut bioauth_notification_manager = BioauthNotificationManager::new();
    let chat_id = 1;

    let start = SystemTime::now();
    let since_the_epoch = start
        .duration_since(std::time::UNIX_EPOCH)
        .expect("Time went backwards");
    let now = since_the_epoch.as_secs();

    bioauth_notification_manager.register(&chat_id, 60, 10, 1, Some(&now));
    assert_eq!(bioauth_notification_manager.alert(), vec![soon_expired(chat_id)]);

    let since_the_epoch = start
        .duration_since(std::time::UNIX_EPOCH)
        .expect("Time went backwards");
    let in_hour = since_the_epoch.as_secs() + 60 * 60000;

    bioauth_notification_manager.register(&chat_id, 60, 10, 1, Some(&(in_hour)));
    assert_eq!(bioauth_notification_manager.alert(), vec![soon_expired(chat_id)]);

    let since_the_epoch = start
        .duration_since(std::time::UNIX_EPOCH)
        .expect("Time went backwards");
    let more_then_in_hour = since_the_epoch.as_secs() + 1234560000;

    bioauth_notification_manager.register(&chat_id, 60, 10, 1, Some(&(more_then_in_hour)));
    assert_eq!(bioauth_notification_manager.alert(), vec![]);
}

#[test]
fn manager_state_defaults_to_zero_and_absent() {
    assert_eq!(
        BioauthNotificationState::default(),
        BioauthNotificationState {
            last_block_number_notified: 0,
            next_block_number_to_notify: 0,
            alert_at: None
        }
    );
}

#[test]
fn alert_is_due_at_expiry_less_lead_time() {
    let mut manager = BioauthNotificationManager::new();
    // 1_000_000 - 2 * 60_000 = 880_000
    manager.register(&7, 2, 10, 1, Some(&1_000_000));
    manager.register(&8, 2, 10, 1, None);
    assert_eq!(manager.alert_as_of(879_999), vec![]);
    assert_eq!(manager.alert_as_of(880_000), vec![soon_expired(7)]);
    // The alert went out: none is pending until the next registration.
    assert_eq!(manager.alert_as_of(880_001), vec![]);
    // A pending alert is not moved by a later registration.
    manager.register(&7, 2, 10, 2, Some(&2_000_000));
    manager.register(&7, 2, 10, 3, Some(&3_000_000));
    assert_eq!(manager.alert_as_of(1_879_999), vec![]);
    assert_eq!(manager.alert_as_of(1_880_000), vec![soon_expired(7)]);
}

#[test]
fn window_is_counted_from_the_last_notification() {
    let mut manager = BioauthNotificationManager::new();
    manager.register(&7, 60, 5, 100, None);
    assert_eq!(manager.notify(100), vec![lost(7)]);
    // Last notified at 100: the window ends at 105.
    manager.register(&7, 60, 5, 101, None);
    assert_eq!(manager.notify(104), vec![]);
    assert_eq!(manager.notify(105), vec![lost(7)]);
    // Registered long after the window: the window is left as it was.
    manager.register(&7, 60, 5, 200, None);
    assert_eq!(manager.notify(200), vec![lost(7)]);
    manager.register(&7, 60, 5, 201, None);
    assert_eq!(manager.notify(204), vec![]);
    assert_eq!(manager.notify(205), vec![lost(7)]);
}

#[test]
fn can_register_tells_when_the_arithmetic_fits() {
    let mut manager = BioauthNotificationManager::new();
    assert!(manager.can_register(&7, u64::MAX, u32::MAX, u32::MAX, None));
    assert!(manager.can_register(&7, 1, 1, 1, Some(&60_000)));
    assert!(!manager.can_register(&7, 1, 1, 1, Some(&59_999)));
    assert!(!manager.can_register(&7, u64::MAX, 1, 1, Some(&u64::MAX)));
    manager.register(&7, 1, 1, 1, None);
    assert!(manager.can_register(&7, 1, 10, u32::MAX - 10, None));
    assert!(!manager.can_register(&7, 1, 10, u32::MAX - 9, None));
    assert!(!manager.can_register(&7, 1, 1, 1, Some(&59_999)));
    manager.register(&7, 1, 1, 1, Some(&60_000));
    // An alert is pending: the expiry is not looked at.
    assert!(manager.can_register(&7, 1, 1, 1, Some(&59_999)));
    manager.register(&7, 1, 1, 1, Some(&59_999));
    assert_eq!(manager.alert_as_of(0), vec![soon_expired(7)]);
}

#[test]
fn notify_tells_every_chat_whose_window_has_opened() {
    let mut manager = BioauthNotificationManager::new();
    for chat in 0..30i64 {
        manager.register(&chat, 60, 10, 50, None);
    }
    let told = manager.notify(50);
    assert!(told.iter().all(|notification| matches!(notification, Notification::BioauthLostNotification { .. })));
    assert_eq!(chats_of(told), (0..30i64).collect::<Vec<_>>());
    for chat in 0..15i64 {
        manager.register(&chat, 60, 10, 51, None);
    }
    // Chats 0..15 wait until block 60; the others never had a window set.
    assert_eq!(chats_of(manager.notify(59)), (15..30i64).collect::<Vec<_>>());
}
