use vstd::prelude::*;
use crate::types::{Address, Error, Event};

verus! {

/// States an escrowed amount can be in.
#[derive(Clone, Copy, PartialEq, Eq, Structural, Debug)]
pub enum EscrowStatus {
    Open,
    Released,
    Refunded,
}

/// What the vault holds: its administrator once initialised, and the
/// notifications it published.
pub struct EscrowModel {
    pub admin: Option<Address>,
    pub events: Seq<Event>,
}

impl EscrowModel {
    /// Whether `admin` may release funds now, and which error is raised if not.
    pub open spec fn release_check(self, admin: Address) -> Result<(), Error> {
        match self.admin {
            None => Err(Error::NotInitialized),
            Some(a) => if a == admin { Ok(()) } else { Err(Error::NotAdmin) },
        }
    }

    /// The vault after releasing the funds of `donation_id` on `admin`'s order.
    pub open spec fn with_release(self, donation_id: u32, admin: Address) -> EscrowModel {
        EscrowModel { events: self.events.push(Event::EscrowReleased { donation_id, admin }), ..self }
    }
}

/// The escrow vault: releases value for a donation on the administrator's order.
pub struct ImpactEscrow {
    admin: Option<Address>,
    events: Vec<Event>,
}

impl View for ImpactEscrow {
    type V = EscrowModel;

    closed spec fn view(&self) -> EscrowModel {
        EscrowModel { admin: self.admin, events: self.events@ }
    }
}

impl ImpactEscrow {
    /// A vault that has not been initialised yet.
    pub fn new() -> (r: Self)
        ensures
            r@.admin is None,
            r@.events.len() == 0,
    {
        ImpactEscrow { admin: None, events: Vec::new() }
    }

    /// Stores the administrator; fails if that was already done.
    pub fn initialize(&mut self, admin: Address) -> (r: Result<(), Error>)
        ensures
            old(self)@.admin is Some ==> r == Err::<(), Error>(Error::AlreadyInitialized) && final(self)@ == old(self)@,
            old(self)@.admin is None ==> r is Ok && final(self)@ == (EscrowModel { admin: Some(admin), ..old(self)@ }),
    {
        if self.admin.is_some() {
            return Err(Error::AlreadyInitialized);
        }
        self.admin = Some(admin);
        Ok(())
    }

    /// Releases the funds held for `donation_id`. Only the administrator may;
    /// each successful call publishes one release notification.
    pub fn release(&mut self, admin: Address, donation_id: u32) -> (r: Result<(), Error>)
        ensures
            match old(self)@.release_check(admin) {
                Err(e) => r == Err::<(), Error>(e) && final(self)@ == old(self)@,
                Ok(_) => r is Ok && final(self)@ == old(self)@.with_release(donation_id, admin),
            },
    {
        match self.admin {
            None => Err(Error::NotInitialized),
            Some(a) => {
                if a != admin {
                    return Err(Error::NotAdmin);
                }
                self.events.push(Event::EscrowReleased { donation_id, admin });
                Ok(())
            },
        }
    }

    /// The notifications published so far, oldest first.
    pub fn events(&self) -> (r: &Vec<Event>)
        ensures
            r@ == self@.events,
    {
        &self.events
    }
}

} // verus!
