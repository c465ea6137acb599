use vstd::prelude::*;
use crate::types::{Address, Error, Event};

verus! {

/// An organisation known to the directory.
pub struct NGO {
    pub id: u32,
    pub name: String,
    pub wallet: Address,
    pub verified: bool,
}

/// What the directory holds: its administrator once initialised, the
/// organisations in order of registration (id `k` at position `k - 1`) and
/// the notifications it published.
pub struct DirectoryModel {
    pub admin: Option<Address>,
    pub ngos: Seq<NGO>,
    pub events: Seq<Event>,
}

impl DirectoryModel {
    /// The organisation with id `ngo_id`, if one was registered.
    pub open spec fn ngo(self, ngo_id: u32) -> Option<NGO> {
        if 1 <= ngo_id <= self.ngos.len() {
            Some(self.ngos[ngo_id - 1])
        } else {
            None
        }
    }

    /// The answer of the directory's `is_verified` query.
    pub open spec fn is_verified(self, ngo_id: u32) -> Result<bool, Error> {
        if self.admin is None {
            Err(Error::NotInitialized)
        } else {
            match self.ngo(ngo_id) {
                Some(n) => Ok(n.verified),
                None => Err(Error::NotFound),
            }
        }
    }
}

/// The NGO directory: organisation records and their `verified` flag.
pub struct NGOVerification {
    admin: Option<Address>,
    ngos: Vec<NGO>,
    events: Vec<Event>,
}

impl View for NGOVerification {
    type V = DirectoryModel;

    closed spec fn view(&self) -> DirectoryModel {
        DirectoryModel { admin: self.admin, ngos: self.ngos@, events: self.events@ }
    }
}

fn copy_ngo(n: &NGO) -> (r: NGO)
    ensures
        r == *n,
{
    NGO { id: n.id, name: n.name.clone(), wallet: n.wallet, verified: n.verified }
}

impl NGOVerification {
    /// Ids are positions: the organisation at position `k` has id `k + 1`.
    pub closed spec fn wf(&self) -> bool {
        &&& self.ngos@.len() <= u32::MAX
        &&& forall|k: int| 0 <= k < self.ngos@.len() ==> #[trigger] self.ngos@[k].id == k + 1
    }

    /// A directory that has not been initialised yet.
    pub fn new() -> (r: Self)
        ensures
            r.wf(),
            r@.admin is None,
            r@.ngos.len() == 0,
            r@.events.len() == 0,
    {
        NGOVerification { admin: None, ngos: Vec::new(), events: Vec::new() }
    }

    /// Stores the administrator; fails if that was already done.
    pub fn initialize(&mut self, admin: Address) -> (r: Result<(), Error>)
        requires
            old(self).wf(),
        ensures
            final(self).wf(),
            old(self)@.admin is Some ==> r == Err::<(), Error>(Error::AlreadyInitialized) && final(self)@ == old(self)@,
            old(self)@.admin is None ==> r is Ok && final(self)@ == (DirectoryModel { admin: Some(admin), ..old(self)@ }),
    {
        if self.admin.is_some() {
            return Err(Error::AlreadyInitialized);
        }
        self.admin = Some(admin);
        Ok(())
    }

    /// Registers a new, unverified organisation and returns its id, which is
    /// one more than the number registered before.
    pub fn register(&mut self, caller: Address, name: String, wallet: Address) -> (r: Result<u32, Error>)
        requires
            old(self).wf(),
            old(self)@.ngos.len() < u32::MAX,
        ensures
            final(self).wf(),
            old(self)@.admin is None ==> r == Err::<u32, Error>(Error::NotInitialized) && final(self)@ == old(self)@,
            old(self)@.admin is Some ==> {
                let id = (old(self)@.ngos.len() + 1) as u32;
                &&& r == Ok::<u32, Error>(id)
                &&& final(self)@.admin == old(self)@.admin
                &&& final(self)@.ngos == old(self)@.ngos.push(NGO { id, name, wallet, verified: false })
                &&& final(self)@.events == old(self)@.events.push(Event::NgoRegistered { id, wallet })
            },
    {
        if self.admin.is_none() {
            return Err(Error::NotInitialized);
        }
        let id = (self.ngos.len() + 1) as u32;
        self.ngos.push(NGO { id, name, wallet, verified: false });
        self.events.push(Event::NgoRegistered { id, wallet });
        Ok(id)
    }

    /// Sets the `verified` flag of an organisation; only the administrator may.
    pub fn set_verified(&mut self, admin: Address, ngo_id: u32, verified: bool) -> (r: Result<(), Error>)
        requires
            old(self).wf(),
        ensures
            final(self).wf(),
            match old(self)@.admin {
                None => r == Err::<(), Error>(Error::NotInitialized) && final(self)@ == old(self)@,
                Some(a) => if a != admin {
                    r == Err::<(), Error>(Error::NotAdmin) && final(self)@ == old(self)@
                } else {
                    match old(self)@.ngo(ngo_id) {
                        None => r == Err::<(), Error>(Error::NotFound) && final(self)@ == old(self)@,
                        Some(n) => {
                            &&& r is Ok
                            &&& final(self)@.admin == old(self)@.admin
                            &&& final(self)@.ngos == old(self)@.ngos.update(ngo_id - 1, NGO { verified, ..n })
                            &&& final(self)@.events == old(self)@.events.push(Event::NgoVerified { ngo_id, verified })
                        },
                    }
                },
            },
    {
        match self.admin {
            None => { return Err(Error::NotInitialized); },
            Some(a) => {
                if a != admin {
                    return Err(Error::NotAdmin);
                }
            },
        }
        if ngo_id == 0 || ngo_id as usize > self.ngos.len() {
            return Err(Error::NotFound);
        }
        let i = (ngo_id - 1) as usize;
        let mut n = self.ngos.remove(i);
        n.verified = verified;
        self.ngos.insert(i, n);
        self.events.push(Event::NgoVerified { ngo_id, verified });
        proof {
            assert(self.ngos@ =~= old(self).ngos@.update(i as int, self.ngos@[i as int]));
        }
        Ok(())
    }

    /// The number of organisations registered so far.
    pub fn ngo_count(&self) -> (r: u32)
        requires
            self.wf(),
        ensures
            r == self@.ngos.len(),
    {
        self.ngos.len() as u32
    }

    /// The record of an organisation.
    pub fn get(&self, ngo_id: u32) -> (r: Result<NGO, Error>)
        requires
            self.wf(),
        ensures
            self@.admin is None ==> r == Err::<NGO, Error>(Error::NotInitialized),
            self@.admin is Some ==> match self@.ngo(ngo_id) {
                Some(n) => r == Ok::<NGO, Error>(n),
                None => r == Err::<NGO, Error>(Error::NotFound),
            },
    {
        if self.admin.is_none() {
            return Err(Error::NotInitialized);
        }
        if ngo_id == 0 || ngo_id as usize > self.ngos.len() {
            return Err(Error::NotFound);
        }
        Ok(copy_ngo(&self.ngos[(ngo_id - 1) as usize]))
    }

    /// Whether an organisation is verified.
    pub fn is_verified(&self, ngo_id: u32) -> (r: Result<bool, Error>)
        requires
            self.wf(),
        ensures
            r == self@.is_verified(ngo_id),
    {
        if self.admin.is_none() {
            return Err(Error::NotInitialized);
        }
        if ngo_id == 0 || ngo_id as usize > self.ngos.len() {
            return Err(Error::NotFound);
        }
        Ok(self.ngos[(ngo_id - 1) as usize].verified)
    }

    /// The notifications published so far, oldest first.
    pub fn events(&self) -> (r: &Vec<Event>)
        ensures
            r@ == self@.events,
    {
        &self.events
    }
}

} // verus!
