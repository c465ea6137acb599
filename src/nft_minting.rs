use vstd::prelude::*;
use crate::types::{Address, Error, Event};

verus! {

/// A token issued to `owner`, pointing at off-ledger content `uri`.
pub struct NFT {
    pub id: u32,
    pub owner: Address,
    pub uri: String,
}

/// What the issuer holds: whether it was initialised, the tokens in order of
/// issue (id `k` at position `k - 1`) and the notifications it published.
pub struct MintingModel {
    pub initialized: bool,
    pub nfts: Seq<NFT>,
    pub events: Seq<Event>,
}

/// How many of `nfts` belong to `owner`.
pub open spec fn owned_count(nfts: Seq<NFT>, owner: Address) -> nat
    decreases nfts.len(),
{
    if nfts.len() == 0 {
        0
    } else {
        owned_count(nfts.drop_last(), owner) + if nfts.last().owner == owner { 1nat } else { 0nat }
    }
}

/// A bound on `owned_count`: no more tokens than there are.
pub proof fn lemma_owned_count_bound(nfts: Seq<NFT>, owner: Address)
    ensures
        owned_count(nfts, owner) <= nfts.len(),
    decreases nfts.len(),
{
    if nfts.len() > 0 {
        lemma_owned_count_bound(nfts.drop_last(), owner);
    }
}

/// The NFT issuer.
pub struct NFTMinting {
    initialized: bool,
    nfts: Vec<NFT>,
    events: Vec<Event>,
}

impl View for NFTMinting {
    type V = MintingModel;

    closed spec fn view(&self) -> MintingModel {
        MintingModel { initialized: self.initialized, nfts: self.nfts@, events: self.events@ }
    }
}

impl NFTMinting {
    /// Ids are positions and fit the id type.
    pub closed spec fn wf(&self) -> bool {
        &&& self.nfts@.len() <= u32::MAX
        &&& forall|k: int| 0 <= k < self.nfts@.len() ==> #[trigger] self.nfts@[k].id == k + 1
    }

    /// An issuer that has issued nothing and is not initialised.
    pub fn new() -> (r: Self)
        ensures
            r.wf(),
            !r@.initialized,
            r@.nfts.len() == 0,
            r@.events.len() == 0,
    {
        NFTMinting { initialized: false, nfts: Vec::new(), events: Vec::new() }
    }

    /// Marks the issuer initialised; fails if it already was.
    pub fn initialize(&mut self) -> (r: Result<(), Error>)
        requires
            old(self).wf(),
        ensures
            final(self).wf(),
            old(self)@.initialized ==> r == Err::<(), Error>(Error::AlreadyInitialized) && final(self)@ == old(self)@,
            !old(self)@.initialized ==> r is Ok && final(self)@ == (MintingModel { initialized: true, ..old(self)@ }),
    {
        if self.initialized {
            return Err(Error::AlreadyInitialized);
        }
        self.initialized = true;
        Ok(())
    }

    /// Issues a token to `to` (already authenticated by the host) and
    /// returns its id, one more than the number issued before.
    pub fn mint(&mut self, to: Address, uri: String) -> (r: u32)
        requires
            old(self).wf(),
            old(self)@.nfts.len() < u32::MAX,
        ensures
            final(self).wf(),
            r == old(self)@.nfts.len() + 1,
            final(self)@.initialized == old(self)@.initialized,
            final(self)@.nfts == old(self)@.nfts.push(NFT { id: r, owner: to, uri }),
            final(self)@.events == old(self)@.events.push(Event::NftMinted { id: r, owner: to }),
    {
        let id = (self.nfts.len() + 1) as u32;
        self.nfts.push(NFT { id, owner: to, uri });
        self.events.push(Event::NftMinted { id, owner: to });
        id
    }

    /// The number of tokens issued so far, which is also the last id handed out.
    pub fn minted_count(&self) -> (r: u32)
        requires
            self.wf(),
        ensures
            r == self@.nfts.len(),
    {
        self.nfts.len() as u32
    }

    /// The token with id `id`.
    pub fn get(&self, id: u32) -> (r: Result<NFT, Error>)
        requires
            self.wf(),
        ensures
            1 <= id <= self@.nfts.len() ==> r == Ok::<NFT, Error>(self@.nfts[id - 1]),
            !(1 <= id <= self@.nfts.len()) ==> r == Err::<NFT, Error>(Error::NotFound),
    {
        if id == 0 || id as usize > self.nfts.len() {
            return Err(Error::NotFound);
        }
        let n = &self.nfts[(id - 1) as usize];
        Ok(NFT { id: n.id, owner: n.owner, uri: n.uri.clone() })
    }

    /// How many tokens `owner` holds.
    pub fn tokens_of(&self, owner: Address) -> (r: u32)
        requires
            self.wf(),
        ensures
            r == owned_count(self@.nfts, owner),
    {
        let mut count: u32 = 0;
        let mut i: usize = 0;
        while i < self.nfts.len()
            invariant
                0 <= i <= self.nfts@.len(),
                self.nfts@.len() <= u32::MAX,
                count == owned_count(self.nfts@.take(i as int), owner),
            decreases self.nfts@.len() - i,
        {
            proof {
                assert(self.nfts@.take(i + 1).drop_last() =~= self.nfts@.take(i as int));
                lemma_owned_count_bound(self.nfts@.take(i as int), owner);
            }
            if self.nfts[i].owner == owner {
                count = count + 1;
            }
            i = i + 1;
        }
        assert(self.nfts@.take(i as int) =~= self.nfts@);
        count
    }

    /// The notifications published so far, oldest first.
    pub fn events(&self) -> (r: &Vec<Event>)
        ensures
            r@ == self@.events,
    {
        &self.events
    }
}

} // verus!
