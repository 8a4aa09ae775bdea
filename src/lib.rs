//! A claim-ownership registry: for each opaque byte key ("claim") it records
//! which account owns it and the block at which it was last touched.
//!
//! The host supplies the caller's identity, the current block number and the
//! key length limit; the registry decides whether a create, revoke or
//! transfer is legal and what state results.
//!
//! - `store`: the map from claims to records, with get / insert / remove.
//! - `rules`: the errors, the checks, and the outcome of each command as spec
//!   functions over the map.
//! - `pallet`: the commands themselves, which hold to those spec functions.
//! - `laws`: properties of the commands, proved over the spec functions.

mod laws;
mod pallet;
mod rules;
mod store;

pub use laws::{
    create_over_limit_refused, create_twice_conflicts, revoke_only_by_owner,
    revoked_claim_absent, transfer_only_by_owner,
};
pub use pallet::{Config, Event, EventView, Pallet};
pub use rules::{
    Claims, Error, check_owner, create_post, create_result, length_ok, owner_result, revoke_post,
    transfer_post,
};
pub use store::{AccountId, BlockNumber, Proofs, same_bytes};
