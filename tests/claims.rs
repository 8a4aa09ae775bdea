use poe::{Config, Error, Event, Pallet};

const KEY_LIMIT: u64 = 32;
const GENESIS: u64 = 0;

fn new_pallet() -> Pallet {
    Pallet::new(Config { proof_hash_key_limit: KEY_LIMIT })
}

#[test]
fn create_claim_works() {
    let mut p = new_pallet();
    let claim = vec![1, 2];
    assert_eq!(p.create_claim(1, claim.clone(), GENESIS), Ok(()));
    assert_eq!(p.proofs().get(&claim), Some((1, GENESIS)));
}

#[test]
fn create_claim_failed_when_claim_already_exist() {
    let mut p = new_pallet();
    let claim = vec![1, 2];
    let _ = p.create_claim(1, claim.clone(), GENESIS);

    let events_before = p.events().clone();
    assert_eq!(p.create_claim(1, claim.clone(), GENESIS), Err(Error::ClaimAlreadyExists));
    assert_eq!(p.proofs().get(&claim), Some((1, GENESIS)));
    assert_eq!(p.events(), &events_before);
}

#[test]
fn revoke_claim_works() {
    let mut p = new_pallet();
    let claim = vec![1, 2];
    let _ = p.create_claim(1, claim.clone(), GENESIS);
    assert_eq!(p.revoke_claim(1, claim.clone()), Ok(()));
    assert_eq!(p.proofs().get(&claim), None);
}

#[test]
fn revoke_claim_failed_when_claim_is_not_exist() {
    let mut p = new_pallet();
    let claim = vec![1, 2];

    assert_eq!(p.revoke_claim(1, claim.clone()), Err(Error::ClaimNotFound));
    assert_eq!(p.proofs().get(&claim), None);
    assert!(p.events().is_empty());
}

#[test]
fn revoke_claim_failed_when_not_claim_owner() {
    let mut p = new_pallet();
    let claim = vec![1, 2];
    let _ = p.create_claim(1, claim.clone(), GENESIS);

    assert_eq!(p.revoke_claim(2, claim.clone()), Err(Error::NotClaimOwner));
    assert_eq!(p.proofs().get(&claim), Some((1, GENESIS)));
}

#[test]
fn transfer_claim_works() {
    let mut p = new_pallet();
    let claim = vec![1, 2];
    let _ = p.create_claim(1, claim.clone(), GENESIS);

    assert_eq!(p.transfer_claim(1, claim.clone(), 2, GENESIS), Ok(()));
    assert_eq!(p.proofs().get(&claim), Some((2, GENESIS)));
}

#[test]
fn transfer_claim_failed_when_claim_is_not_exist() {
    let mut p = new_pallet();
    let claim = vec![1, 2];

    assert_eq!(p.proofs().get(&claim), None);
    assert_eq!(p.transfer_claim(1, claim.clone(), 2, GENESIS), Err(Error::ClaimNotFound));
    assert_eq!(p.proofs().get(&claim), None);
}

#[test]
fn transfer_claim_failed_when_not_claim_owner() {
    let mut p = new_pallet();
    let claim = vec![1, 2];
    let _ = p.create_claim(1, claim.clone(), GENESIS);

    assert_eq!(p.transfer_claim(2, claim.clone(), 3, GENESIS), Err(Error::NotClaimOwner));
    assert_eq!(p.proofs().get(&claim), Some((1, GENESIS)));
}

#[test]
fn create_claim_works_by_proof_hash_lenght_limit() {
    let mut p = new_pallet();
    let claim = vec![1; KEY_LIMIT as usize];
    assert_eq!(p.create_claim(1, claim.clone(), GENESIS), Ok(()));
    assert_eq!(p.proofs().get(&claim), Some((1, GENESIS)));
}

#[test]
fn create_claim_failed_when_proof_hash_lenght_overflow() {
    let mut p = new_pallet();
    let claim = vec![1; (KEY_LIMIT + 1) as usize];

    assert_eq!(p.create_claim(1, claim.clone(), GENESIS), Err(Error::ClaimTooLong));
    assert_eq!(p.proofs().get(&claim), None);
    assert!(p.events().is_empty());
}

#[test]
fn created_record_holds_owner_and_block() {
    let mut p = new_pallet();
    assert_eq!(p.create_claim(1, vec![1, 2], 17), Ok(()));
    assert_eq!(p.proofs().get(&[1, 2]), Some((1, 17)));
    assert!(p.proofs().contains_key(&[1, 2]));
    assert_eq!(p.create_claim(1, vec![1, 2], 18), Err(Error::ClaimAlreadyExists));
    assert_eq!(p.proofs().get(&[1, 2]), Some((1, 17)));
}

#[test]
fn second_account_cannot_create_existing_claim() {
    let mut p = new_pallet();
    assert_eq!(p.create_claim(1, vec![9], 3), Ok(()));
    assert_eq!(p.create_claim(5, vec![9], 4), Err(Error::ClaimAlreadyExists));
    assert_eq!(p.proofs().get(&[9]), Some((1, 3)));
}

#[test]
fn transfer_records_new_owner_and_block() {
    let mut p = new_pallet();
    assert_eq!(p.create_claim(1, vec![1, 2], 5), Ok(()));
    assert_eq!(p.transfer_claim(1, vec![1, 2], 2, 11), Ok(()));
    assert_eq!(p.proofs().get(&[1, 2]), Some((2, 11)));
    // the old owner has lost its rights, the new one has them
    assert_eq!(p.revoke_claim(1, vec![1, 2]), Err(Error::NotClaimOwner));
    assert_eq!(p.transfer_claim(2, vec![1, 2], 1, 12), Ok(()));
    assert_eq!(p.proofs().get(&[1, 2]), Some((1, 12)));
}

#[test]
fn revoked_claim_stays_absent_and_can_be_created_again() {
    let mut p = new_pallet();
    assert_eq!(p.create_claim(4, vec![7, 7, 7], 1), Ok(()));
    assert_eq!(p.revoke_claim(4, vec![7, 7, 7]), Ok(()));
    assert_eq!(p.proofs().get(&[7, 7, 7]), None);
    assert!(!p.proofs().contains_key(&[7, 7, 7]));
    assert_eq!(p.revoke_claim(4, vec![7, 7, 7]), Err(Error::ClaimNotFound));
    assert_eq!(p.create_claim(6, vec![7, 7, 7], 2), Ok(()));
    assert_eq!(p.proofs().get(&[7, 7, 7]), Some((6, 2)));
}

#[test]
fn events_follow_create_and_revoke_only() {
    let mut p = new_pallet();
    assert_eq!(p.create_claim(1, vec![1, 2], 1), Ok(()));
    assert_eq!(p.transfer_claim(1, vec![1, 2], 2, 2), Ok(()));
    assert_eq!(p.revoke_claim(2, vec![1, 2]), Ok(()));
    assert_eq!(
        p.events(),
        &vec![Event::ClaimCreated(1, vec![1, 2]), Event::ClaimRevoked(2, vec![1, 2])]
    );
}

#[test]
fn empty_claim_is_accepted() {
    let mut p = Pallet::new(Config { proof_hash_key_limit: 0 });
    assert_eq!(p.config().proof_hash_key_limit, 0);
    assert_eq!(p.create_claim(1, vec![], 1), Ok(()));
    assert_eq!(p.proofs().get(&[]), Some((1, 1)));
    assert_eq!(p.create_claim(1, vec![0], 1), Err(Error::ClaimTooLong));
}

#[test]
fn length_check_comes_before_existence_check() {
    let mut p = Pallet::new(Config { proof_hash_key_limit: 1 });
    assert_eq!(p.create_claim(1, vec![1, 2], 1), Err(Error::ClaimTooLong));
    assert_eq!(p.proofs().get(&[1, 2]), None);
}

#[test]
fn claims_are_kept_apart() {
    let mut p = new_pallet();
    assert_eq!(p.create_claim(1, vec![1, 2], 1), Ok(()));
    assert_eq!(p.create_claim(2, vec![1, 3], 2), Ok(()));
    assert_eq!(p.create_claim(3, vec![1], 3), Ok(()));
    assert_eq!(p.revoke_claim(2, vec![1, 3]), Ok(()));
    assert_eq!(p.proofs().get(&[1, 2]), Some((1, 1)));
    assert_eq!(p.proofs().get(&[1, 3]), None);
    assert_eq!(p.proofs().get(&[1]), Some((3, 3)));
}
