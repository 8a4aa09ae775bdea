use vstd::prelude::*;
use crate::rules::{
    Claims, Error, check_owner, create_post, create_result, length_ok, owner_result, revoke_post,
    transfer_post,
};
use crate::store::{AccountId, BlockNumber, Proofs};

verus! {

/// What the registry reports to observers after a command succeeds.
#[derive(Debug, Clone, PartialEq, Eq)]
pub enum Event {
    /// The account created a record for the claim.
    ClaimCreated(AccountId, Vec<u8>),
    /// The account revoked its record for the claim.
    ClaimRevoked(AccountId, Vec<u8>),
}

/// An event with the claim as a sequence of bytes.
pub enum EventView {
    ClaimCreated(AccountId, Seq<u8>),
    ClaimRevoked(AccountId, Seq<u8>),
}

impl View for Event {
    type V = EventView;

    open spec fn view(&self) -> EventView {
        match self {
            Event::ClaimCreated(who, claim) => EventView::ClaimCreated(*who, claim@),
            Event::ClaimRevoked(who, claim) => EventView::ClaimRevoked(*who, claim@),
        }
    }
}

/// Settings fixed when the registry is set up.
#[derive(Debug, Clone, Copy, PartialEq, Eq, Structural)]
pub struct Config {
    /// The greatest length, in bytes, of a claim.
    pub proof_hash_key_limit: u64,
}

/// The registry: its store of claims, its settings and the events it has
/// reported, oldest first.
pub struct Pallet {
    config: Config,
    proofs: Proofs,
    events: Vec<Event>,
}

impl Pallet {
    /// The store's own invariant holds.
    pub closed spec fn wf(&self) -> bool {
        self.proofs.wf()
    }

    /// The records held, by claim.
    pub closed spec fn claims(&self) -> Claims {
        self.proofs@
    }

    /// The greatest length of a claim.
    pub closed spec fn limit(&self) -> u64 {
        self.config.proof_hash_key_limit
    }

    /// The events reported so far, oldest first.
    pub closed spec fn log(&self) -> Seq<EventView> {
        self.events@.map_values(|e: Event| e@)
    }

    /// An empty registry with the given settings.
    pub fn new(config: Config) -> (r: Pallet)
        ensures
            r.wf(),
            r.claims() == Claims::empty(),
            r.limit() == config.proof_hash_key_limit,
            r.log() == Seq::<EventView>::empty(),
    {
        let r = Pallet { config, proofs: Proofs::new(), events: Vec::new() };
        assert(r.log() =~= Seq::<EventView>::empty());
        r
    }

    /// The settings the registry was made with.
    pub fn config(&self) -> (r: Config)
        ensures
            r.proof_hash_key_limit == self.limit(),
    {
        self.config
    }

    /// The store of claims.
    pub fn proofs(&self) -> (r: &Proofs)
        requires
            self.wf(),
        ensures
            r.wf(),
            r@ == self.claims(),
    {
        &self.proofs
    }

    /// The events reported so far, oldest first.
    pub fn events(&self) -> (r: &Vec<Event>)
        ensures
            r@.map_values(|e: Event| e@) == self.log(),
    {
        &self.events
    }

    /// `sender` claims `claim` at block `now`. Fails with `ClaimTooLong` when
    /// the claim is over the limit, then with `ClaimAlreadyExists` when a record
    /// exists; otherwise records `(sender, now)` and reports `ClaimCreated`.
    pub fn create_claim(&mut self, sender: AccountId, claim: Vec<u8>, now: BlockNumber) -> (r: Result<(), Error>)
        requires
            old(self).wf(),
        ensures
            final(self).wf(),
            final(self).limit() == old(self).limit(),
            r == create_result(old(self).claims(), old(self).limit(), claim@),
            final(self).claims() == create_post(old(self).claims(), old(self).limit(), claim@, sender, now),
            final(self).log() == (if r is Ok {
                old(self).log().push(EventView::ClaimCreated(sender, claim@))
            } else {
                old(self).log()
            }),
    {
        if !length_ok(claim.as_slice(), self.config.proof_hash_key_limit) {
            return Err(Error::ClaimTooLong);
        }
        if self.proofs.contains_key(claim.as_slice()) {
            return Err(Error::ClaimAlreadyExists);
        }
        let key = claim.clone();
        assert(key@ =~= claim@);
        self.proofs.insert(key, sender, now);
        self.deposit_event(Event::ClaimCreated(sender, claim));
        Ok(())
    }

    /// `sender` revokes its record for `claim`. Fails with `ClaimNotFound`
    /// when there is none, then with `NotClaimOwner` when another account
    /// owns it; otherwise removes the record and reports `ClaimRevoked`.
    pub fn revoke_claim(&mut self, sender: AccountId, claim: Vec<u8>) -> (r: Result<(), Error>)
        requires
            old(self).wf(),
        ensures
            final(self).wf(),
            final(self).limit() == old(self).limit(),
            r == owner_result(old(self).claims(), sender, claim@),
            final(self).claims() == revoke_post(old(self).claims(), sender, claim@),
            final(self).log() == (if r is Ok {
                old(self).log().push(EventView::ClaimRevoked(sender, claim@))
            } else {
                old(self).log()
            }),
    {
        let checked = check_owner(self.proofs.get(claim.as_slice()), sender);
        if checked.is_err() {
            return checked;
        }
        self.proofs.remove(claim.as_slice());
        self.deposit_event(Event::ClaimRevoked(sender, claim));
        Ok(())
    }

    /// `sender` hands its record for `claim` to `dest` at block `now`. Fails
    /// with `ClaimNotFound` when there is none, then with `NotClaimOwner` when
    /// another account owns it; otherwise records `(dest, now)`. No event is
    /// reported.
    pub fn transfer_claim(
        &mut self,
        sender: AccountId,
        claim: Vec<u8>,
        dest: AccountId,
        now: BlockNumber,
    ) -> (r: Result<(), Error>)
        requires
            old(self).wf(),
        ensures
            final(self).wf(),
            final(self).limit() == old(self).limit(),
            r == owner_result(old(self).claims(), sender, claim@),
            final(self).claims() == transfer_post(old(self).claims(), sender, claim@, dest, now),
            final(self).log() == old(self).log(),
    {
        let checked = check_owner(self.proofs.get(claim.as_slice()), sender);
        if checked.is_err() {
            return checked;
        }
        self.proofs.insert(claim, dest, now);
        Ok(())
    }

    /// Appends `event` to the events reported.
    fn deposit_event(&mut self, event: Event)
        ensures
            final(self).config == old(self).config,
            final(self).proofs == old(self).proofs,
            final(self).log() == old(self).log().push(event@),
    {
        self.events.push(event);
        assert(self.log() =~= old(self).log().push(event@));
    }
}

} // verus!
