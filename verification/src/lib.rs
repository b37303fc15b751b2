//! Verified models of two Substrate pallets: a proof-of-tangible-work pallet
//! (tasks and a scoreboard of members) and a validator-set pallet (validators,
//! offline reports and member profiles).

pub mod account_list;
pub mod encoding;
pub mod id_map;
pub mod origin;
pub mod potw;
pub mod potw_laws;
pub mod validator_set;
pub mod validator_set_laws;
