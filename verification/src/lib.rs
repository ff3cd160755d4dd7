//! Block-driven subscription and notification engine for validator
//! bio-authentication status.
//!
//! Chats subscribe to validator keys. On every finalized block the engine
//! decides, pairing by pairing, whether a "lost" notification or a
//! "soon expired" alert is due, and keeps the timing state that throttles
//! repeats.
//!
//! - [`bioauth_settings`]: the settings of each pairing, defaulted when absent.
//! - [`bioauth_logic`]: the registry of pairings, the decision for one pairing
//!   on one block, the run over all pairings, and the feedback of delivery
//!   failures.
//! - [`main_loop`]: what the main loop decides between its waits: seeding, a
//!   block, a chat's request.
//! - [`block_subscription`], [`database`], [`telegram`], [`dev_subscriptions`]:
//!   the values that pass between the engine and the chain, the database and
//!   the chats, and the text that a chat is sent.
//! - [`logic`], [`bioauth_notification_manager`], [`chain`],
//!   [`channel_messages`]: the plain watcher, which keeps its timing by chat
//!   and reports by account.
//! - [`clock`]: the wall clock.
//!
//! The types that are keyed by a validator key or an address are generic in
//! it. Their contracts ask that the key type obeys the hash-table key model of
//! `vstd`: its hash is deterministic, and `==` holds of two keys exactly when
//! they are the same value.

pub mod bioauth_logic;
pub mod bioauth_notification_manager;
pub mod bioauth_settings;
pub mod block_subscription;
pub mod chain;
pub mod channel_messages;
pub mod clock;
pub mod database;
pub mod dev_subscriptions;
pub mod hash_keys;
pub mod logic;
pub mod main_loop;
pub mod telegram;
