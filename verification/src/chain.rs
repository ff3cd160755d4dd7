//! The accounts that chats watch on the chain, and which of them to report
//! on a block.

use std::collections::{HashMap, HashSet};
use std::hash::Hash;
use vstd::prelude::*;
use vstd::std_specs::hash::obeys_key_model;

verus! {

/// A feature that a chat can switch on for an account.
#[derive(Eq, PartialEq, Hash, Debug, Clone, Copy)]
pub enum ActiveFeature {
    ActiveValidator,
    Biomapper,
}

/// The chat behind a subscription.
#[derive(Debug, Clone, Copy, PartialEq, Eq)]
pub struct TUser {
    pub chat_id: i64,
}

/// A set of features.
#[derive(Debug, Clone, Copy, PartialEq, Eq)]
pub struct ActiveFeatures {
    pub active_validator: bool,
    pub biomapper: bool,
}

impl ActiveFeatures {
    /// Whether the set holds `feature`.
    pub open spec fn has(self, feature: ActiveFeature) -> bool {
        match feature {
            ActiveFeature::ActiveValidator => self.active_validator,
            ActiveFeature::Biomapper => self.biomapper,
        }
    }

    /// Whether the set holds `feature`.
    pub fn contains(&self, feature: &ActiveFeature) -> (held: bool)
        ensures
            held == self.has(*feature),
    {
        match feature {
            ActiveFeature::ActiveValidator => self.active_validator,
            ActiveFeature::Biomapper => self.biomapper,
        }
    }
}

/// What a chat asks to watch for an account, and what is reported to the
/// chat of an account.
#[derive(Debug, Clone, Copy, PartialEq, Eq)]
pub struct AccountSettings<Address> {
    pub address: Address,
    pub t_user: TUser,
    pub active_features: ActiveFeatures,
}

/// The subscribers of a feature after an account's settings came in: the
/// first chat that asked for an address keeps it.
pub open spec fn enrolled<Address>(
    subscribers: Map<Address, TUser>,
    address: Address,
    t_user: TUser,
    asked: bool,
) -> Map<Address, TUser> {
    if asked && !subscribers.contains_key(address) {
        subscribers.insert(address, t_user)
    } else {
        subscribers
    }
}

/// What is reported for a validator subscriber whose address has no active
/// authentication.
pub open spec fn lapse_report<Address>(address: Address, t_user: TUser) -> AccountSettings<
    Address,
> {
    AccountSettings {
        address,
        t_user,
        active_features: ActiveFeatures { active_validator: true, biomapper: false },
    }
}

/// The accounts that chats watch, by feature.
#[derive(Debug)]
pub struct Subscribers<Address> {
    validator_subscribers: HashMap<Address, TUser>,
    biomapper_subscribers: HashMap<Address, TUser>,
}

impl<Address> Subscribers<Address> {
    /// The chat that watches each address as an active validator.
    pub closed spec fn validators(&self) -> Map<Address, TUser> {
        self.validator_subscribers@
    }

    /// The chat that watches each address in the biomapper.
    pub closed spec fn biomappers(&self) -> Map<Address, TUser> {
        self.biomapper_subscribers@
    }

    pub fn new() -> (r: Self)
        ensures
            r.validators() == Map::<Address, TUser>::empty(),
            r.biomappers() == Map::<Address, TUser>::empty(),
    {
        Subscribers { validator_subscribers: HashMap::new(), biomapper_subscribers: HashMap::new() }
    }
}

impl<Address> Subscribers<Address> where Address: Copy + Hash + Eq {
    /// Takes in the settings of an account: the chat is enrolled for each
    /// feature that it asks for, unless another chat watches the address for
    /// that feature already.
    pub fn enroll(&mut self, account_setting: &AccountSettings<Address>)
        requires
            obeys_key_model::<Address>(),
        ensures
            final(self).validators() == enrolled(
                old(self).validators(),
                account_setting.address,
                account_setting.t_user,
                account_setting.active_features.has(ActiveFeature::ActiveValidator),
            ),
            final(self).biomappers() == enrolled(
                old(self).biomappers(),
                account_setting.address,
                account_setting.t_user,
                account_setting.active_features.has(ActiveFeature::Biomapper),
            ),
    {
        if account_setting.active_features.contains(&ActiveFeature::ActiveValidator) {
            if !self.validator_subscribers.contains_key(&account_setting.address) {
                self.validator_subscribers.insert(account_setting.address, account_setting.t_user);
            }
        }
        if account_setting.active_features.contains(&ActiveFeature::Biomapper) {
            if !self.biomapper_subscribers.contains_key(&account_setting.address) {
                self.biomapper_subscribers.insert(account_setting.address, account_setting.t_user);
            }
        }
    }

    /// The reports of a block: one for every validator subscriber whose
    /// address is not among the active authentications.
    pub fn lapsed(&self, active_authentications: &[Address]) -> (reports: Vec<
        AccountSettings<Address>,
    >)
        requires
            obeys_key_model::<Address>(),
        ensures
            reports@.no_duplicates(),
            forall|report: AccountSettings<Address>| #[trigger]
                reports@.contains(report) <==> {
                    &&& self.validators().contains_key(report.address)
                    &&& !active_authentications@.contains(report.address)
                    &&& report == lapse_report(report.address, self.validators()[report.address])
                },
    {
        let mut active: HashSet<Address> = HashSet::new();
        let mut n: usize = 0;
        while n < active_authentications.len()
            invariant
                obeys_key_model::<Address>(),
                n <= active_authentications.len(),
                forall|address: Address|
                    active@.contains(address) <==> exists|m: int|
                        0 <= m < n && active_authentications@[m] == address,
            decreases active_authentications.len() - n,
        {
            active.insert(active_authentications[n]);
            n = n + 1;
        }
        let mut reports: Vec<AccountSettings<Address>> = Vec::new();
        let addresses = crate::hash_keys::keys_of(&self.validator_subscribers);
        let ghost mut origin: Seq<int> = Seq::empty();
        let mut i: usize = 0;
        while i < addresses.len()
            invariant
                obeys_key_model::<Address>(),
                i <= addresses.len(),
                addresses@.no_duplicates(),
                forall|address: Address|
                    addresses@.contains(address) <==> self.validators().contains_key(address),
                forall|address: Address|
                    active@.contains(address) <==> active_authentications@.contains(address),
                origin.len() == reports@.len(),
                forall|a: int|
                    0 <= a < origin.len() ==> 0 <= #[trigger] origin[a] < i
                        && !active_authentications@.contains(addresses[origin[a]]) && reports@[a]
                        == lapse_report(
                        addresses[origin[a]],
                        self.validators()[addresses[origin[a]]],
                    ),
                forall|a: int, b: int|
                    0 <= a < b < origin.len() ==> #[trigger] origin[a] < #[trigger] origin[b],
                forall|j: int|
                    0 <= j < i && !active_authentications@.contains(#[trigger] addresses[j])
                        ==> exists|a: int| 0 <= a < origin.len() && #[trigger] origin[a] == j,
            decreases addresses.len() - i,
        {
            let address = addresses[i];
            assert(addresses@.contains(address));
            let ghost before = origin;
            if !active.contains(&address) {
                let t_user = *self.validator_subscribers.get(&address).unwrap();
                let report = AccountSettings {
                    address,
                    t_user,
                    active_features: ActiveFeatures { active_validator: true, biomapper: false },
                };
                reports.push(report);
                proof {
                    origin = origin.push(i as int);
                }
            }
            proof {
                assert forall|j: int|
                    0 <= j < i + 1 && !active_authentications@.contains(
                        #[trigger] addresses[j],
                    ) implies exists|a: int| 0 <= a < origin.len() && #[trigger] origin[a] == j by {
                    if j < i {
                        let a = choose|a: int| 0 <= a < before.len() && #[trigger] before[a] == j;
                        assert(origin[a] == j);
                    } else {
                        assert(origin[before.len() as int] == j);
                    }
                }
            }
            i = i + 1;
        }
        proof {
            assert forall|a: int, b: int|
                0 <= a < reports@.len() && 0 <= b < reports@.len() && a != b implies reports@[a]
                != reports@[b] by {
                if a < b {
                    assert(origin[a] < origin[b]);
                } else {
                    assert(origin[b] < origin[a]);
                }
                assert(addresses@[origin[a]] != addresses@[origin[b]]);
            }
            assert forall|report: AccountSettings<Address>| #[trigger]
                reports@.contains(report) <==> {
                    &&& self.validators().contains_key(report.address)
                    &&& !active_authentications@.contains(report.address)
                    &&& report == lapse_report(report.address, self.validators()[report.address])
                } by {
                if reports@.contains(report) {
                    let a = choose|a: int| 0 <= a < reports@.len() && reports@[a] == report;
                    assert(addresses@.contains(addresses@[origin[a]]));
                }
                if self.validators().contains_key(report.address)
                    && !active_authentications@.contains(report.address) && report
                    == lapse_report(report.address, self.validators()[report.address]) {
                    assert(addresses@.contains(report.address));
                    let j = choose|j: int|
                        0 <= j < addresses@.len() && addresses@[j] == report.address;
                    assert(addresses[j] == report.address);
                    let a = choose|a: int| 0 <= a < origin.len() && #[trigger] origin[a] == j;
                    assert(reports@[a] == report);
                }
            }
        }
        reports
    }
}

} // verus!
