//! The request-handling rules of the 7TV v3 API: who may do what, how emote
//! sets, users, reports and roles change, how incoming requests are checked,
//! and how GraphQL results are rendered. Storage, networking and the GraphQL
//! runtime live outside this crate; everything here works on plain values.
use vstd::prelude::*;

pub mod audit;
pub mod bans;
pub mod config;
pub mod cosmetics;
pub mod cookies;
pub mod editors;
pub mod emote_set_ops;
pub mod emote_sets;
pub mod emotes;
pub mod entitlements;
pub mod error;
pub mod gql;
pub mod guards;
pub mod ids;
pub mod ip;
pub mod login;
pub mod messages;
pub mod permissions;
pub mod reports;
pub mod roles;
pub mod search;
pub mod session;
pub mod subscriptions;
pub mod text;
pub mod types;
pub mod urls;
pub mod user_ops;
pub mod views;

verus! {

} // verus!
