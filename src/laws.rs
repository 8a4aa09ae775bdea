use vstd::prelude::*;
use crate::rules::{Claims, Error, create_post, create_result, owner_result, revoke_post, transfer_post};
use crate::store::{AccountId, BlockNumber};

verus! {

/// Once a claim within the limit has been created, creating it again, by any
/// account, fails with `ClaimAlreadyExists`, whether or not the first create
/// succeeded.
pub proof fn create_twice_conflicts(
    claims: Claims,
    limit: u64,
    claim: Seq<u8>,
    first: AccountId,
    second: AccountId,
    now: BlockNumber,
    later: BlockNumber,
)
    requires
        claim.len() <= limit,
    ensures
        create_result(create_post(claims, limit, claim, first, now), limit, claim)
            == Err::<(), Error>(Error::ClaimAlreadyExists),
        create_post(create_post(claims, limit, claim, first, now), limit, claim, second, later)
            == create_post(claims, limit, claim, first, now),
{
}

/// A claim one byte over the limit is refused with `ClaimTooLong` and the
/// store is left as it was.
pub proof fn create_over_limit_refused(
    claims: Claims,
    limit: u64,
    claim: Seq<u8>,
    sender: AccountId,
    now: BlockNumber,
)
    requires
        claim.len() == limit + 1,
    ensures
        create_result(claims, limit, claim) == Err::<(), Error>(Error::ClaimTooLong),
        create_post(claims, limit, claim, sender, now) == claims,
{
}

/// A revoke succeeds exactly when a record exists and belongs to the caller;
/// otherwise the store is unchanged and the error says which check failed.
pub proof fn revoke_only_by_owner(claims: Claims, sender: AccountId, claim: Seq<u8>)
    ensures
        owner_result(claims, sender, claim) is Ok <==> (claims.contains_key(claim)
            && claims[claim].0 == sender),
        !claims.contains_key(claim) ==> owner_result(claims, sender, claim) == Err::<(), Error>(
            Error::ClaimNotFound,
        ),
        claims.contains_key(claim) && claims[claim].0 != sender ==> owner_result(
            claims,
            sender,
            claim,
        ) == Err::<(), Error>(Error::NotClaimOwner),
        owner_result(claims, sender, claim) is Err ==> revoke_post(claims, sender, claim) == claims,
        owner_result(claims, sender, claim) is Ok ==> revoke_post(claims, sender, claim)
            == claims.remove(claim),
{
}

/// A transfer succeeds exactly when a record exists and belongs to the caller;
/// then the record holds the destination and the current block, and nothing
/// else changes. Otherwise the store is unchanged.
pub proof fn transfer_only_by_owner(
    claims: Claims,
    sender: AccountId,
    claim: Seq<u8>,
    dest: AccountId,
    now: BlockNumber,
)
    ensures
        owner_result(claims, sender, claim) is Ok <==> (claims.contains_key(claim)
            && claims[claim].0 == sender),
        owner_result(claims, sender, claim) is Ok ==> ({
            let after = transfer_post(claims, sender, claim, dest, now);
            &&& after.contains_key(claim)
            &&& after[claim] == (dest, now)
            &&& after.remove(claim) == claims.remove(claim)
        }),
        owner_result(claims, sender, claim) is Err ==> transfer_post(claims, sender, claim, dest, now)
            == claims,
{
    if owner_result(claims, sender, claim) is Ok {
        let after = transfer_post(claims, sender, claim, dest, now);
        assert(after.remove(claim) =~= claims.remove(claim));
    }
}

/// After a successful revoke the claim has no record.
pub proof fn revoked_claim_absent(claims: Claims, sender: AccountId, claim: Seq<u8>)
    requires
        owner_result(claims, sender, claim) is Ok,
    ensures
        !revoke_post(claims, sender, claim).contains_key(claim),
{
}

} // verus!
