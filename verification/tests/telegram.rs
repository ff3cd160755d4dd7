use biostatus::bioauth_logic::Notification;
use biostatus::telegram::{
    humanode_address, notification_text, subscription_addresses, HUMANODE_ADDRESS_FORMAT,
};
use sp_core::crypto::{
    from_known_address_format, AccountId32, Ss58AddressFormatRegistry, Ss58Codec,
};

fn key(seed: u8) -> [u8; 32] {
    let mut key = [0u8; 32];
    for (i, byte) in key.iter_mut().enumerate() {
        *byte = seed.wrapping_mul(31).wrapping_add(i as u8);
    }
    key
}

#[test]
fn humanode_format_is_the_registry_entry() {
    assert_eq!(HUMANODE_ADDRESS_FORMAT, 5234);
    assert_eq!(
        HUMANODE_ADDRESS_FORMAT,
        from_known_address_format(Ss58AddressFormatRegistry::HumanodeAccount)
    );
}

#[test]
fn address_decodes_to_the_key_in_the_humanode_format() {
    for seed in [0u8, 1, 7, 200] {
        let address = humanode_address(&key(seed));
        assert!(address.starts_with("hm"));
        let (account, format) = AccountId32::from_ss58check_with_version(&address).unwrap();
        let bytes: &[u8] = account.as_ref();
        assert_eq!(bytes, &key(seed)[..]);
        assert_eq!(u16::from(format), HUMANODE_ADDRESS_FORMAT);
    }
    assert_ne!(humanode_address(&key(1)), humanode_address(&key(2)));
}

#[test]
fn address_is_what_the_codec_gives() {
    let expected = AccountId32::new(key(9))
        .to_ss58check_with_version(Ss58AddressFormatRegistry::HumanodeAccount.into());
    assert_eq!(humanode_address(&key(9)), expected);
}

#[test]
fn subscription_addresses_keep_the_order_of_the_keys() {
    assert_eq!(subscription_addresses(&[]), Vec::<String>::new());
    let addresses = subscription_addresses(&[key(3), key(1), key(3)]);
    assert_eq!(
        addresses,
        vec![humanode_address(&key(3)), humanode_address(&key(1)), humanode_address(&key(3))]
    );
}

#[test]
fn notification_text_starts_with_the_address() {
    let address = humanode_address(&key(5));
    let lost = Notification::BioauthLostNotification { chat_id: 1, bioauth_public_key: key(5) };
    assert_eq!(
        notification_text(&lost),
        format!("{address} have lost bio-authentication to be an active validator.")
    );
    let alert = Notification::BioauthSoonExpiredAlert { chat_id: 1, bioauth_public_key: key(5) };
    assert_eq!(notification_text(&alert), format!("{address} will lost bio-authentication soon"));
}
