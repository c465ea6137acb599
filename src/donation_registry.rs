use vstd::prelude::*;
use std::collections::HashMap;
use crate::types::{Address, Error, Event, Status};
use crate::ngo_verification::{DirectoryModel, NGOVerification};
use crate::impact_escrow::ImpactEscrow;

verus! {

broadcast use vstd::std_specs::hash::group_hash_axioms;

/// A recorded donation.
#[derive(Clone, Copy, PartialEq, Eq, Structural, Debug)]
pub struct Donation {
    pub id: u32,
    pub donor: Address,
    pub amount: i128,
    pub ngo_id: u32,
    pub project_id: u32,
    pub donor_lat: i32,
    pub donor_lon: i32,
    pub recipient_lat: i32,
    pub recipient_lon: i32,
    pub status: Status,
    pub timestamp: u64,
}

/// The collaborators a registry is wired to, fixed once by `initialize`.
#[derive(Clone, Copy, PartialEq, Eq, Structural, Debug)]
pub struct Config {
    pub ngo_verification: Address,
    pub escrow: Address,
}

/// What the registry holds.
///
/// `config` is `None` until the registry is initialised. Donation `k` sits at
/// position `k - 1` of `donations`, so the next id to hand out is one more
/// than the number of donations. `ngo_index` lists, per NGO, the ids of its
/// donations in the order they were recorded.
pub struct RegistryModel {
    pub address: Address,
    pub config: Option<Config>,
    pub donations: Seq<Donation>,
    pub ngo_index: Map<u32, Seq<u32>>,
    pub events: Seq<Event>,
}

impl RegistryModel {
    /// The donation with id `id`, if one was recorded.
    pub open spec fn donation(self, id: u32) -> Option<Donation> {
        if 1 <= id <= self.donations.len() {
            Some(self.donations[id - 1])
        } else {
            None
        }
    }

    /// The ids of the donations recorded for `ngo_id`, oldest first.
    pub open spec fn ngo_ids(self, ngo_id: u32) -> Seq<u32> {
        if self.ngo_index.contains_key(ngo_id) {
            self.ngo_index[ngo_id]
        } else {
            Seq::empty()
        }
    }

    /// The same registry with donation `id` replaced by `d`.
    pub open spec fn with_donation(self, id: u32, d: Donation) -> RegistryModel {
        RegistryModel { donations: self.donations.update(id - 1, d), ..self }
    }

    /// The registry's invariant: ids are positions (the donation at position
    /// `k` has id `k + 1`) and fit the id type, every amount is positive, and
    /// each NGO's index lists exactly the ids of its donations, oldest first.
    pub open spec fn consistent(self) -> bool {
        &&& self.donations.len() <= u32::MAX
        &&& forall|k: int| 0 <= k < self.donations.len() ==> #[trigger] self.donations[k].id == k + 1
        &&& forall|k: int| 0 <= k < self.donations.len() ==> #[trigger] self.donations[k].amount > 0
        &&& forall|n: u32| #[trigger] self.ngo_ids(n) == ids_of_ngo(self.donations, n)
    }

    /// The registry after `d` was recorded: `d` is appended, its id joins its
    /// NGO's index and a notification is published.
    pub open spec fn with_recorded(self, d: Donation) -> RegistryModel {
        RegistryModel {
            donations: self.donations.push(d),
            ngo_index: self.ngo_index.insert(d.ngo_id, self.ngo_ids(d.ngo_id).push(d.id)),
            events: self.events.push(
                Event::DonationRecorded { id: d.id, donor: d.donor, ngo_id: d.ngo_id, amount: d.amount },
            ),
            ..self
        }
    }

    /// The registry after `verifier` verified the impact of donation `id`:
    /// its status becomes `Verified` and a notification is published.
    pub open spec fn with_impact_verified(self, id: u32, verifier: Address) -> RegistryModel {
        RegistryModel {
            events: self.events.push(Event::ImpactVerified { donation_id: id, verifier }),
            ..self.with_donation(id, Donation { status: Status::Verified, ..self.donation(id)->0 })
        }
    }

    /// Whether a donation of `amount` to `ngo_id` is accepted, given what the
    /// NGO directory answers, and which error is raised if not.
    pub open spec fn admission(self, directory: DirectoryModel, amount: i128, ngo_id: u32) -> Result<(), Error> {
        if self.config is None {
            Err(Error::NotInitialized)
        } else if amount <= 0 {
            Err(Error::InvalidAmount)
        } else {
            match directory.is_verified(ngo_id) {
                Err(e) => Err(e),
                Ok(verified) => if verified { Ok(()) } else { Err(Error::NgoNotVerified) },
            }
        }
    }

    /// The donation with id `id`, or the error a lookup of it raises.
    pub open spec fn lookup(self, id: u32) -> Result<Donation, Error> {
        if self.config is None {
            Err(Error::NotInitialized)
        } else {
            match self.donation(id) {
                Some(d) => Ok(d),
                None => Err(Error::NotFound),
            }
        }
    }
}

/// The ids of the donations in `donations` that went to `ngo_id`, in order.
pub open spec fn ids_of_ngo(donations: Seq<Donation>, ngo_id: u32) -> Seq<u32>
    decreases donations.len(),
{
    if donations.len() == 0 {
        Seq::empty()
    } else {
        let rest = ids_of_ngo(donations.drop_last(), ngo_id);
        if donations.last().ngo_id == ngo_id {
            rest.push(donations.last().id)
        } else {
            rest
        }
    }
}

/// An NGO never lists more ids than there are donations.
pub proof fn lemma_ids_of_ngo_len(donations: Seq<Donation>, ngo_id: u32)
    ensures
        ids_of_ngo(donations, ngo_id).len() <= donations.len(),
    decreases donations.len(),
{
    if donations.len() > 0 {
        lemma_ids_of_ngo_len(donations.drop_last(), ngo_id);
    }
}

/// Changing a donation's other fields leaves every NGO's list of ids as it is.
pub proof fn lemma_ids_of_ngo_same(a: Seq<Donation>, b: Seq<Donation>, ngo_id: u32)
    requires
        a.len() == b.len(),
        forall|k: int| 0 <= k < a.len() ==> #[trigger] a[k].id == b[k].id && a[k].ngo_id == b[k].ngo_id,
    ensures
        ids_of_ngo(a, ngo_id) == ids_of_ngo(b, ngo_id),
    decreases a.len(),
{
    if a.len() > 0 {
        lemma_ids_of_ngo_same(a.drop_last(), b.drop_last(), ngo_id);
    }
}

/// Replacing a donation by one with the same id, NGO and amount keeps the
/// registry consistent.
pub proof fn lemma_update_consistent(m: RegistryModel, id: u32, d: Donation)
    requires
        m.consistent(),
        m.donation(id) is Some,
        d.id == id,
        d.ngo_id == m.donation(id)->0.ngo_id,
        d.amount == m.donation(id)->0.amount,
    ensures
        m.with_donation(id, d).consistent(),
{
    let after = m.with_donation(id, d);
    assert forall|k: int| 0 <= k < after.donations.len() implies #[trigger] after.donations[k].id == k + 1
        && after.donations[k].amount > 0 && after.donations[k].ngo_id == m.donations[k].ngo_id by {
        assert(m.donations[k].id == k + 1);
        assert(m.donations[k].amount > 0);
    }
    assert forall|n: u32| #[trigger] after.ngo_ids(n) == ids_of_ngo(after.donations, n) by {
        assert(m.ngo_ids(n) == ids_of_ngo(m.donations, n));
        assert forall|k: int| 0 <= k < m.donations.len() implies #[trigger] m.donations[k].id == after.donations[k].id
            && m.donations[k].ngo_id == after.donations[k].ngo_id by {
            assert(after.donations[k].id == k + 1);
        }
        lemma_ids_of_ngo_same(m.donations, after.donations, n);
    }
}

/// Verifying the impact of a pending donation twice: the first call makes
/// it `Verified`, the second leaves it `Verified`, and nothing else in the
/// record changes. Both calls get past the status check, so the vault is
/// asked for a release each time; only a `Completed` donation stops that.
pub proof fn lemma_verify_twice(m: RegistryModel, id: u32, first: Address, second: Address)
    requires
        m.lookup(id) is Ok,
        m.lookup(id)->Ok_0.status == Status::Pending,
    ensures
        ({
            let d = m.lookup(id)->Ok_0;
            let once = m.with_impact_verified(id, first);
            let twice = once.with_impact_verified(id, second);
            &&& once.lookup(id) == Ok::<Donation, Error>(Donation { status: Status::Verified, ..d })
            &&& once.lookup(id)->Ok_0.status != Status::Completed
            &&& twice.lookup(id) == Ok::<Donation, Error>(Donation { status: Status::Verified, ..d })
            &&& twice.events == m.events.push(Event::ImpactVerified { donation_id: id, verifier: first }).push(
                Event::ImpactVerified { donation_id: id, verifier: second },
            )
        }),
{
}

/// Ids only grow. Recording `d` into a consistent registry gives `d` an id
/// above every id handed out before; a lookup of that id afterwards returns
/// `d` (pending, with the amount, NGO and project it was recorded with), no
/// other lookup changes, and the registry is still consistent, so the same
/// holds for every later record.
pub proof fn lemma_record_ids_increase(m: RegistryModel, d: Donation)
    requires
        m.config is Some,
        m.consistent(),
        m.donations.len() < u32::MAX,
        d.id == m.donations.len() + 1,
        d.amount > 0,
    ensures
        forall|k: int| 0 <= k < m.donations.len() ==> #[trigger] m.donations[k].id < d.id,
        m.with_recorded(d).consistent(),
        m.with_recorded(d).lookup(d.id) == Ok::<Donation, Error>(d),
        forall|id: u32| id != d.id ==> #[trigger] m.with_recorded(d).lookup(id) == m.lookup(id),
{
    let after = m.with_recorded(d);
    assert(after.donations.drop_last() =~= m.donations);
    assert forall|k: int| 0 <= k < after.donations.len() implies #[trigger] after.donations[k].id == k + 1 by {
        if k < m.donations.len() {
            assert(after.donations[k] == m.donations[k]);
        }
    }
    assert forall|k: int| 0 <= k < after.donations.len() implies #[trigger] after.donations[k].amount > 0 by {
        if k < m.donations.len() {
            assert(after.donations[k] == m.donations[k]);
        }
    }
    assert forall|n: u32| #[trigger] after.ngo_ids(n) == ids_of_ngo(after.donations, n) by {
        assert(m.ngo_ids(n) == ids_of_ngo(m.donations, n));
    }
}

/// The donation ledger: records donations against verified NGOs and drives
/// their status, releasing escrowed funds once impact is verified.
pub struct DonationRegistry {
    address: Address,
    config: Option<Config>,
    next_id: u32,
    donations: Vec<Donation>,
    ngo_index: HashMap<u32, Vec<u32>>,
    events: Vec<Event>,
}

impl View for DonationRegistry {
    type V = RegistryModel;

    closed spec fn view(&self) -> RegistryModel {
        RegistryModel {
            address: self.address,
            config: self.config,
            donations: self.donations@,
            ngo_index: self.ngo_index@.map_values(|v: Vec<u32>| v@),
            events: self.events@,
        }
    }
}

impl DonationRegistry {
    /// The counter equals the number of donations, and the model is consistent.
    pub closed spec fn wf(&self) -> bool {
        &&& self.next_id == self.donations@.len()
        &&& self@.consistent()
    }

    /// A well-formed registry is consistent.
    pub proof fn lemma_consistent(&self)
        requires
            self.wf(),
        ensures
            self@.consistent(),
    {
    }

    /// A registry living at `address`, not yet initialised.
    pub fn new(address: Address) -> (r: Self)
        ensures
            r.wf(),
            r@.address == address,
            r@.config is None,
            r@.donations.len() == 0,
            r@.ngo_index == Map::<u32, Seq<u32>>::empty(),
            r@.events.len() == 0,
    {
        let r = DonationRegistry {
            address,
            config: None,
            next_id: 0,
            donations: Vec::new(),
            ngo_index: HashMap::new(),
            events: Vec::new(),
        };
        assert(r@.ngo_index =~= Map::<u32, Seq<u32>>::empty());
        r
    }

    /// The registry's own identity, which it presents when it calls the vault.
    pub fn address(&self) -> (r: Address)
        ensures
            r == self@.address,
    {
        self.address
    }

    /// The number of donations recorded so far, which is also the last id handed out.
    pub fn donation_count(&self) -> (r: u32)
        requires
            self.wf(),
        ensures
            r == self@.donations.len(),
    {
        self.next_id
    }

    /// The notifications published so far, oldest first.
    pub fn events(&self) -> (r: &Vec<Event>)
        ensures
            r@ == self@.events,
    {
        &self.events
    }

    /// Wires the registry to its NGO directory and escrow vault, once.
    pub fn initialize(&mut self, ngo_verification: Address, escrow: Address) -> (r: Result<(), Error>)
        requires
            old(self).wf(),
        ensures
            final(self).wf(),
            old(self)@.config is Some ==> r == Err::<(), Error>(Error::AlreadyInitialized) && final(self)@ == old(self)@,
            old(self)@.config is None ==> r is Ok && final(self)@ == (RegistryModel {
                config: Some(Config { ngo_verification, escrow }),
                ..old(self)@
            }),
    {
        if self.config.is_some() {
            return Err(Error::AlreadyInitialized);
        }
        self.config = Some(Config { ngo_verification, escrow });
        assert forall|n: u32| #[trigger] self@.ngo_ids(n) == ids_of_ngo(self@.donations, n) by {
            assert(old(self)@.ngo_ids(n) == ids_of_ngo(old(self)@.donations, n));
        }
        Ok(())
    }
    /// Records a donation against a verified NGO and returns its id.
    ///
    /// The caller is `donor`, already authenticated by the host. `directory`
    /// is the NGO directory the registry was initialised with, and
    /// `timestamp` the ledger time of the call. The new donation is pending,
    /// with recipient coordinates `(0, 0)`, and is appended to its NGO's index.
    pub fn record_donation(
        &mut self,
        directory: &NGOVerification,
        donor: Address,
        amount: i128,
        ngo_id: u32,
        project_id: u32,
        donor_lat: i32,
        donor_lon: i32,
        timestamp: u64,
    ) -> (r: Result<u32, Error>)
        requires
            old(self).wf(),
            directory.wf(),
            old(self)@.donations.len() < u32::MAX,
        ensures
            final(self).wf(),
            old(self)@.config is Some && amount <= 0 ==> r == Err::<u32, Error>(Error::InvalidAmount)
                && final(self)@ == old(self)@,
            old(self)@.config is Some && amount > 0 && directory@.is_verified(ngo_id) == Ok::<bool, Error>(false)
                ==> r == Err::<u32, Error>(Error::NgoNotVerified) && final(self)@ == old(self)@,
            match old(self)@.admission(directory@, amount, ngo_id) {
                Err(e) => r == Err::<u32, Error>(e) && final(self)@ == old(self)@,
                Ok(_) => {
                    let id = (old(self)@.donations.len() + 1) as u32;
                    let d = Donation {
                        id,
                        donor,
                        amount,
                        ngo_id,
                        project_id,
                        donor_lat,
                        donor_lon,
                        recipient_lat: 0,
                        recipient_lon: 0,
                        status: Status::Pending,
                        timestamp,
                    };
                    &&& r == Ok::<u32, Error>(id)
                    &&& forall|k: int| 0 <= k < old(self)@.donations.len()
                        ==> #[trigger] old(self)@.donations[k].id < id
                    &&& final(self)@.lookup(id) == Ok::<Donation, Error>(d)
                    &&& final(self)@ == old(self)@.with_recorded(d)
                },
            },
    {
        if self.config.is_none() {
            return Err(Error::NotInitialized);
        }
        if amount <= 0 {
            return Err(Error::InvalidAmount);
        }
        let verified = match directory.is_verified(ngo_id) {
            Ok(v) => v,
            Err(e) => { return Err(e); },
        };
        if !verified {
            return Err(Error::NgoNotVerified);
        }
        let id = self.next_id + 1;
        let d = Donation {
            id,
            donor,
            amount,
            ngo_id,
            project_id,
            donor_lat,
            donor_lon,
            recipient_lat: 0,
            recipient_lon: 0,
            status: Status::Pending,
            timestamp,
        };
        proof {
            lemma_record_ids_increase(self@, d);
        }
        let ghost old_index = self@.ngo_index;
        let ghost old_ids = self@.ngo_ids(ngo_id);
        let mut ids = match self.ngo_index.remove(&ngo_id) {
            Some(v) => v,
            None => Vec::new(),
        };
        assert(ids@ == old_ids);
        ids.push(id);
        self.ngo_index.insert(ngo_id, ids);
        self.next_id = id;
        self.donations.push(d);
        self.events.push(Event::DonationRecorded { id, donor, ngo_id, amount });
        assert(self@.ngo_index =~= old_index.insert(ngo_id, old_ids.push(id)));
        Ok(id)
    }

    /// Overwrites the recipient coordinates of a donation, whatever its status.
    pub fn set_recipient_location(&mut self, donation_id: u32, lat: i32, lon: i32) -> (r: Result<(), Error>)
        requires
            old(self).wf(),
        ensures
            final(self).wf(),
            match old(self)@.lookup(donation_id) {
                Err(e) => r == Err::<(), Error>(e) && final(self)@ == old(self)@,
                Ok(d) => r is Ok && final(self)@ == old(self)@.with_donation(
                    donation_id,
                    Donation { recipient_lat: lat, recipient_lon: lon, ..d },
                ),
            },
    {
        if self.config.is_none() {
            return Err(Error::NotInitialized);
        }
        if donation_id == 0 || donation_id as usize > self.donations.len() {
            return Err(Error::NotFound);
        }
        let i = (donation_id - 1) as usize;
        let d = self.donations[i];
        proof {
            lemma_update_consistent(self@, donation_id, Donation { recipient_lat: lat, recipient_lon: lon, ..d });
        }
        self.donations.set(i, Donation { recipient_lat: lat, recipient_lon: lon, ..d });
        Ok(())
    }

    /// A copy of a donation.
    pub fn get_donation(&self, id: u32) -> (r: Result<Donation, Error>)
        requires
            self.wf(),
        ensures
            r == self@.lookup(id),
    {
        if self.config.is_none() {
            return Err(Error::NotInitialized);
        }
        if id == 0 || id as usize > self.donations.len() {
            return Err(Error::NotFound);
        }
        Ok(self.donations[(id - 1) as usize])
    }

    /// How many donations were recorded for an NGO.
    pub fn get_ngo_donations_len(&self, ngo_id: u32) -> (r: Result<u32, Error>)
        requires
            self.wf(),
        ensures
            self@.config is None ==> r == Err::<u32, Error>(Error::NotInitialized),
            self@.config is Some ==> r == Ok::<u32, Error>(self@.ngo_ids(ngo_id).len() as u32)
                && self@.ngo_ids(ngo_id).len() <= u32::MAX,
    {
        if self.config.is_none() {
            return Err(Error::NotInitialized);
        }
        proof {
            lemma_ids_of_ngo_len(self@.donations, ngo_id);
        }
        match self.ngo_index.get(&ngo_id) {
            Some(ids) => Ok(ids.len() as u32),
            None => Ok(0),
        }
    }

    /// The id of the `index`-th donation recorded for an NGO, oldest first.
    pub fn get_ngo_donation_id(&self, ngo_id: u32, index: u32) -> (r: Result<u32, Error>)
        requires
            self.wf(),
        ensures
            self@.config is None ==> r == Err::<u32, Error>(Error::NotInitialized),
            self@.config is Some && index >= self@.ngo_ids(ngo_id).len() ==> r == Err::<u32, Error>(Error::IndexOutOfBounds),
            self@.config is Some && index < self@.ngo_ids(ngo_id).len() ==> r == Ok::<u32, Error>(self@.ngo_ids(ngo_id)[index as int]),
    {
        if self.config.is_none() {
            return Err(Error::NotInitialized);
        }
        match self.ngo_index.get(&ngo_id) {
            Some(ids) => {
                if (index as usize) < ids.len() {
                    Ok(ids[index as usize])
                } else {
                    Err(Error::IndexOutOfBounds)
                }
            },
            None => Err(Error::IndexOutOfBounds),
        }
    }

    /// Marks a donation's impact as verified and has the escrow vault release
    /// its funds.
    ///
    /// The caller is `verifier`, already authenticated by the host; `escrow`
    /// is the vault the registry was initialised with, and the registry
    /// presents its own address to it. A completed donation is left alone and
    /// the call succeeds. Any other donation becomes `Verified` (also when it
    /// already was) and the vault is asked to release again. If the vault
    /// refuses, neither the registry nor the vault changes.
    pub fn verify_impact(&mut self, escrow: &mut ImpactEscrow, donation_id: u32, verifier: Address) -> (r: Result<bool, Error>)
        requires
            old(self).wf(),
        ensures
            final(self).wf(),
            old(self)@.config is Some && old(self)@.donation(donation_id) is None
                ==> r == Err::<bool, Error>(Error::NotFound) && final(self)@ == old(self)@,
            match old(self)@.lookup(donation_id) {
                Err(e) => r == Err::<bool, Error>(e) && final(self)@ == old(self)@ && final(escrow)@ == old(escrow)@,
                Ok(d) => if d.status == Status::Completed {
                    r == Ok::<bool, Error>(true) && final(self)@ == old(self)@ && final(escrow)@ == old(escrow)@
                } else {
                    match old(escrow)@.release_check(old(self)@.address) {
                        Err(e) => r == Err::<bool, Error>(e) && final(self)@ == old(self)@ && final(escrow)@ == old(escrow)@,
                        Ok(_) => {
                            &&& r == Ok::<bool, Error>(true)
                            &&& final(self)@ == old(self)@.with_impact_verified(donation_id, verifier)
                            &&& final(escrow)@ == old(escrow)@.with_release(donation_id, old(self)@.address)
                        },
                    }
                },
            },
    {
        if self.config.is_none() {
            return Err(Error::NotInitialized);
        }
        if donation_id == 0 || donation_id as usize > self.donations.len() {
            return Err(Error::NotFound);
        }
        let i = (donation_id - 1) as usize;
        let d = self.donations[i];
        if d.status == Status::Completed {
            return Ok(true);
        }
        match escrow.release(self.address, donation_id) {
            Ok(()) => {},
            Err(e) => { return Err(e); },
        }
        proof {
            lemma_update_consistent(self@, donation_id, Donation { status: Status::Verified, ..d });
        }
        self.donations.set(i, Donation { status: Status::Verified, ..d });
        let ghost updated = self@;
        self.events.push(Event::ImpactVerified { donation_id, verifier });
        assert forall|n: u32| #[trigger] self@.ngo_ids(n) == ids_of_ngo(self@.donations, n) by {
            assert(updated.ngo_ids(n) == ids_of_ngo(updated.donations, n));
        }
        Ok(true)
    }
}

} // verus!
