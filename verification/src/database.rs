//! What is kept in the database: the rows that the engine is seeded with, and
//! the writes that mirror a change.

use vstd::prelude::*;

verus! {

/// A persisted subscription with its settings.
#[derive(Debug, Clone, Copy, PartialEq, Eq)]
pub struct LoadForInitialization<ValidatorPublicKey> {
    /// The chat id of the subscriber.
    pub t_chat_id: i64,
    /// The validator key that the chat watches.
    pub validator_public_key: ValidatorPublicKey,
    /// Least number of blocks between two "lost" notifications.
    pub max_message_frequency_in_blocks: u32,
    /// How long before the expiry the alert is due.
    pub alert_before_expiration_in_mins: u64,
}

/// What a chat has chosen to hear from the team, as persisted.
#[derive(Debug, Clone, Copy, PartialEq, Eq)]
pub struct AllDevSubscriptions {
    pub t_chat_id: i64,
    pub affected_validator: bool,
}

/// A write to the database.
#[derive(Debug, Clone, Copy, PartialEq, Eq)]
pub enum DbCommand<ValidatorPublicKey> {
    BioauthSubscribe { chat_id: i64, public_key: ValidatorPublicKey },
    BioauthUnsubscribe { chat_id: i64, public_key: ValidatorPublicKey },
    BioauthUnsubscribeAll { chat_id: i64 },
    UpdateAffectedValidatorSubscription { chat_id: i64, enable: bool },
    UpdateBioauthAlertBeforeExpirationInMins {
        chat_id: i64,
        public_key: ValidatorPublicKey,
        alert_before_expiration_in_mins: u64,
    },
    UpdateBioauthMaxMessageFrequencyInBlocks {
        chat_id: i64,
        public_key: ValidatorPublicKey,
        max_message_frequency_in_blocks: u32,
    },
}

/// A byte string of `N` bytes, as a fixed-size column is read.
#[derive(Debug, Clone, Copy, PartialEq, Eq)]
pub struct ByteArray<const N: usize>(pub [u8; N]);

/// A column held another number of bytes than its type asks for.
#[derive(Debug, Clone, Copy, PartialEq, Eq)]
pub struct WrongLength {
    pub actual: usize,
    pub expected: usize,
}

impl<const N: usize> ByteArray<N> {
    /// The bytes of the array.
    pub open spec fn view(&self) -> Seq<u8> {
        self.0@
    }

    /// Reads a byte string of exactly `N` bytes.
    pub fn build(data: Vec<u8>) -> (r: Result<Self, WrongLength>)
        ensures
            match r {
                Ok(bytes) => data@.len() == N && bytes@ == data@,
                Err(error) => data@.len() != N && error == (WrongLength {
                    actual: data@.len() as usize,
                    expected: N,
                }),
            },
    {
        if data.len() != N {
            return Err(WrongLength { actual: data.len(), expected: N });
        }
        let mut tmp = [0u8; N];
        let mut i: usize = 0;
        while i < N
            invariant
                i <= N,
                data@.len() == N,
                forall|j: int| 0 <= j < i ==> tmp@[j] == data@[j],
            decreases N - i,
        {
            tmp[i] = data[i];
            i = i + 1;
        }
        assert(tmp@ =~= data@);
        Ok(ByteArray(tmp))
    }
}

} // verus!
