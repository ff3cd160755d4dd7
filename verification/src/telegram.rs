//! What passes between the chats and the engine: the changes that a chat
//! asks for, and the text of what it is told.

use crate::bioauth_logic::Notification;
use sp_core::crypto::{AccountId32, Ss58AddressFormat, Ss58Codec};
use vstd::prelude::*;

verus! {

/// The address format of the Humanode network in the SS58 registry.
pub const HUMANODE_ADDRESS_FORMAT: u16 = 5234;

/// A change that a chat asked for: to its subscriptions, to the settings of
/// one of them, or to what it hears from the team.
#[derive(Debug, Clone, Copy, PartialEq, Eq)]
pub enum SubscriptionUpdate<BioauthPublicKey> {
    SubscribeToValidator { chat_id: i64, bioauth_public_key: BioauthPublicKey },
    UnsubscribeToValidator { chat_id: i64, bioauth_public_key: BioauthPublicKey },
    UpdateSubscriptionAlertBeforeExpirationInMins {
        chat_id: i64,
        bioauth_public_key: BioauthPublicKey,
        in_mins: u64,
    },
    UpdateSubscriptionMaxMessageFrequencyInBlocks {
        chat_id: i64,
        bioauth_public_key: BioauthPublicKey,
        in_blocks: u32,
    },
    RemoveAllValidatorSubscriptions { chat_id: i64 },
    AffectedValidatorEnable { chat_id: i64 },
    AffectedValidatorDisable { chat_id: i64 },
}

/// The SS58 text of a 32-byte public key in the address format `format`.
pub uninterp spec fn ss58_text(public_key: Seq<u8>, format: u16) -> Seq<char>;

/// `Ss58Codec::to_ss58check_with_version` of `sp_core`, on the account id of
/// the key and the address format with prefix `format`: the SS58 text of the
/// key in that format. The text depends on the key and the prefix alone.
#[verifier::external_body]
fn to_ss58check_with_version(public_key: &[u8; 32], format: u16) -> (address: String)
    ensures
        address@ == ss58_text(public_key@, format),
{
    AccountId32::new(*public_key).to_ss58check_with_version(Ss58AddressFormat::custom(format))
}

/// `String::push_str` appends `tail` to the end of `text`.
#[verifier::external_body]
fn push_str(text: &mut String, tail: &str)
    ensures
        final(text)@ == old(text)@ + tail@,
{
    text.push_str(tail)
}

/// What a chat is told when a validator has no active authentication. The
/// validator is named by its address.
pub fn lost_notification_text(bioauth_public_key_string: &str) -> (text: String)
    ensures
        text@ == bioauth_public_key_string@
            + " have lost bio-authentication to be an active validator."@,
{
    let mut text = bioauth_public_key_string.to_owned();
    push_str(&mut text, " have lost bio-authentication to be an active validator.");
    text
}

/// What a chat is told when a validator's authentication is about to
/// expire. The validator is named by its address.
pub fn soon_expired_alert_text(bioauth_public_key_string: &str) -> (text: String)
    ensures
        text@ == bioauth_public_key_string@ + " will lost bio-authentication soon"@,
{
    let mut text = bioauth_public_key_string.to_owned();
    push_str(&mut text, " will lost bio-authentication soon");
    text
}

/// The address of a validator key, as the chats see it.
pub fn humanode_address(bioauth_public_key: &[u8; 32]) -> (address: String)
    ensures
        address@ == ss58_text(bioauth_public_key@, HUMANODE_ADDRESS_FORMAT),
{
    to_ss58check_with_version(bioauth_public_key, HUMANODE_ADDRESS_FORMAT)
}

/// The addresses of the validator keys that a chat is subscribed to, in the
/// order of the keys.
pub fn subscription_addresses(subscriptions: &[[u8; 32]]) -> (addresses: Vec<String>)
    ensures
        addresses@.len() == subscriptions@.len(),
        forall|i: int|
            0 <= i < subscriptions@.len() ==> (#[trigger] addresses@[i])@ == ss58_text(
                subscriptions@[i]@,
                HUMANODE_ADDRESS_FORMAT,
            ),
{
    let mut addresses: Vec<String> = Vec::new();
    let mut i: usize = 0;
    while i < subscriptions.len()
        invariant
            i <= subscriptions.len(),
            addresses@.len() == i,
            forall|j: int|
                0 <= j < i ==> (#[trigger] addresses@[j])@ == ss58_text(
                    subscriptions@[j]@,
                    HUMANODE_ADDRESS_FORMAT,
                ),
        decreases subscriptions.len() - i,
    {
        addresses.push(humanode_address(&subscriptions[i]));
        i = i + 1;
    }
    addresses
}

/// The text that tells a chat of a notification: the validator's address,
/// and what happened to its authentication.
pub fn notification_text(notification: &Notification<[u8; 32]>) -> (text: String)
    ensures
        text@ == ss58_text(notification.key()@, HUMANODE_ADDRESS_FORMAT) + match notification {
            Notification::BioauthLostNotification { .. } => {
                " have lost bio-authentication to be an active validator."@
            },
            Notification::BioauthSoonExpiredAlert { .. } => " will lost bio-authentication soon"@,
        },
{
    match notification {
        Notification::BioauthLostNotification { bioauth_public_key, .. } => {
            let bioauth_public_key_string = humanode_address(bioauth_public_key);
            lost_notification_text(bioauth_public_key_string.as_str())
        },
        Notification::BioauthSoonExpiredAlert { bioauth_public_key, .. } => {
            let bioauth_public_key_string = humanode_address(bioauth_public_key);
            soon_expired_alert_text(bioauth_public_key_string.as_str())
        },
    }
}

} // verus!
