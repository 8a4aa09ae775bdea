use vstd::prelude::*;
use crate::store::{AccountId, BlockNumber};

verus! {

/// What a rejected command reports. A rejected command changes nothing.
#[derive(Debug, Clone, Copy, PartialEq, Eq, Structural)]
pub enum Error {
    /// The claim is longer than the configured limit.
    ClaimTooLong,
    /// A record for the claim already exists.
    ClaimAlreadyExists,
    /// No record exists for the claim.
    ClaimNotFound,
    /// The record belongs to another account.
    NotClaimOwner,
}

/// The registry's state in the abstract: claim bytes to (owner, block).
pub type Claims = Map<Seq<u8>, (AccountId, BlockNumber)>;

/// The outcome of creating `claim` under key length limit `limit`:
/// the length is checked first, then that no record exists.
pub open spec fn create_result(claims: Claims, limit: u64, claim: Seq<u8>) -> Result<(), Error> {
    if claim.len() > limit {
        Err(Error::ClaimTooLong)
    } else if claims.contains_key(claim) {
        Err(Error::ClaimAlreadyExists)
    } else {
        Ok(())
    }
}

/// The state after creating `claim` for `sender` at block `now`.
pub open spec fn create_post(
    claims: Claims,
    limit: u64,
    claim: Seq<u8>,
    sender: AccountId,
    now: BlockNumber,
) -> Claims {
    if create_result(claims, limit, claim) is Ok {
        claims.insert(claim, (sender, now))
    } else {
        claims
    }
}

/// The outcome of a command by `sender` that only the claim's owner may make:
/// the record must exist, then belong to `sender`.
pub open spec fn owner_result(claims: Claims, sender: AccountId, claim: Seq<u8>) -> Result<(), Error> {
    if !claims.contains_key(claim) {
        Err(Error::ClaimNotFound)
    } else if claims[claim].0 != sender {
        Err(Error::NotClaimOwner)
    } else {
        Ok(())
    }
}

/// The state after `sender` revokes `claim`.
pub open spec fn revoke_post(claims: Claims, sender: AccountId, claim: Seq<u8>) -> Claims {
    if owner_result(claims, sender, claim) is Ok {
        claims.remove(claim)
    } else {
        claims
    }
}

/// The state after `sender` transfers `claim` to `dest` at block `now`.
pub open spec fn transfer_post(
    claims: Claims,
    sender: AccountId,
    claim: Seq<u8>,
    dest: AccountId,
    now: BlockNumber,
) -> Claims {
    if owner_result(claims, sender, claim) is Ok {
        claims.insert(claim, (dest, now))
    } else {
        claims
    }
}

/// Whether `claim` is within the key length limit.
pub fn length_ok(claim: &[u8], limit: u64) -> (r: bool)
    ensures
        r == (claim@.len() <= limit),
{
    claim.len() as u64 <= limit
}

/// Checks that `sender` owns the record `record` found for a claim.
pub fn check_owner(record: Option<(AccountId, BlockNumber)>, sender: AccountId) -> (r: Result<(), Error>)
    ensures
        r == (match record {
            None => Err(Error::ClaimNotFound),
            Some(rec) => if rec.0 == sender { Ok(()) } else { Err(Error::NotClaimOwner) },
        }),
{
    match record {
        None => Err(Error::ClaimNotFound),
        Some((owner, _)) => if owner == sender {
            Ok(())
        } else {
            Err(Error::NotClaimOwner)
        },
    }
}

} // verus!
