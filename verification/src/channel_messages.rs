//! Messages between the chain watcher and the chat transport.

use vstd::prelude::*;

verus! {

/// What the watcher asks the transport to tell a chat.
#[derive(Debug, Clone, Copy, PartialEq, Eq)]
pub enum Notification {
    BioauthLostNotification { chat_id: i64 },
    BioauthSoonExpiredAlert { chat_id: i64 },
}

impl Notification {
    /// The chat that the notification goes to.
    pub open spec fn chat(self) -> i64 {
        match self {
            Notification::BioauthLostNotification { chat_id } => chat_id,
            Notification::BioauthSoonExpiredAlert { chat_id } => chat_id,
        }
    }
}

/// A message from the team to every chat that takes such messages.
#[derive(Debug)]
pub enum SystemMessage {
    HumanodeTeamMessage { message: String },
}

/// What a chat asks of the watcher.
#[derive(Debug)]
pub enum TelegramMessage {
    Start { chat_id: i64 },
    SetValidatorPublicKey { chat_id: i64, public_key: Option<String> },
    SetBiomapperPublicKey { chat_id: i64, public_key: Option<String> },
    SetHumanodeTeamMessage { chat_id: i64, value: bool },
    SetValidatorFrequencyInBlocks { chat_id: i64, validator_frequency_in_blocks: i32 },
    SetBiomapperFrequencyInBlocks { chat_id: i64, validator_frequency_in_blocks: i32 },
}

} // verus!
