use biostatus::chain::{AccountSettings, ActiveFeature, ActiveFeatures, Subscribers, TUser};
use biostatus::database::{ByteArray, WrongLength};

fn settings(address: u64, chat_id: i64, active_validator: bool, biomapper: bool) -> AccountSettings<u64> {
    AccountSettings {
        address,
        t_user: TUser { chat_id },
        active_features: ActiveFeatures { active_validator, biomapper },
    }
}

#[test]
fn feature_set_holds_what_is_switched_on() {
    let features = ActiveFeatures { active_validator: true, biomapper: false };
    assert!(features.contains(&ActiveFeature::ActiveValidator));
    assert!(!features.contains(&ActiveFeature::Biomapper));
    let features = ActiveFeatures { active_validator: false, biomapper: true };
    assert!(!features.contains(&ActiveFeature::ActiveValidator));
    assert!(features.contains(&ActiveFeature::Biomapper));
}

#[test]
fn nothing_lapses_without_subscribers() {
    let subscribers: Subscribers<u64> = Subscribers::new();
    assert_eq!(subscribers.lapsed(&[]), vec![]);
    assert_eq!(subscribers.lapsed(&[1, 2, 3]), vec![]);
}

#[test]
fn lapsed_reports_the_validators_that_are_not_active() {
    let mut subscribers = Subscribers::new();
    subscribers.enroll(&settings(10, 1, true, false));
    subscribers.enroll(&settings(11, 2, true, true));
    subscribers.enroll(&settings(12, 3, false, true));
    subscribers.enroll(&settings(13, 4, false, false));

    let mut reports = subscribers.lapsed(&[11, 11, 99]);
    reports.sort_by_key(|report| report.address);
    assert_eq!(reports, vec![settings(10, 1, true, false)]);

    let mut reports = subscribers.lapsed(&[]);
    reports.sort_by_key(|report| report.address);
    assert_eq!(reports, vec![settings(10, 1, true, false), settings(11, 2, true, false)]);

    assert_eq!(subscribers.lapsed(&[10, 11]), vec![]);
}

#[test]
fn first_chat_to_ask_for_an_address_keeps_it() {
    let mut subscribers = Subscribers::new();
    subscribers.enroll(&settings(10, 1, true, false));
    subscribers.enroll(&settings(10, 2, true, true));
    subscribers.enroll(&settings(10, 3, true, true));
    assert_eq!(subscribers.lapsed(&[]), vec![settings(10, 1, true, false)]);
}

#[test]
fn byte_array_takes_exactly_its_length() {
    let bytes: Vec<u8> = (0u8..32).collect();
    let built = ByteArray::<32>::build(bytes.clone()).unwrap();
    assert_eq!(built.0.to_vec(), bytes);
    assert_eq!(
        ByteArray::<32>::build(vec![1u8; 31]),
        Err(WrongLength { actual: 31, expected: 32 })
    );
    assert_eq!(
        ByteArray::<32>::build(vec![1u8; 33]),
        Err(WrongLength { actual: 33, expected: 32 })
    );
    assert_eq!(ByteArray::<0>::build(vec![]), Ok(ByteArray([])));
    assert_eq!(ByteArray::<2>::build(vec![]), Err(WrongLength { actual: 0, expected: 2 }));
}
