use vstd::prelude::*;

verus! {

/// The identity of an account or of a registry on the ledger.
///
/// The logic only ever compares identities, so an identity is a number.
#[derive(Clone, Copy, PartialEq, Eq, Structural, Debug)]
pub struct Address {
    pub key: u64,
}

/// Lifecycle of a donation.
#[derive(Clone, Copy, PartialEq, Eq, Structural, Debug)]
pub enum Status {
    Pending,
    Verified,
    Completed,
}

/// The reasons an operation is rejected. The first violated precondition
/// decides which one is reported.
#[derive(Clone, Copy, PartialEq, Eq, Structural, Debug)]
pub enum Error {
    AlreadyInitialized,
    NotInitialized,
    InvalidAmount,
    NgoNotVerified,
    NotFound,
    IndexOutOfBounds,
    NotAdmin,
}

/// Notifications published for outside observers.
#[derive(Clone, Copy, PartialEq, Eq, Structural, Debug)]
pub enum Event {
    DonationRecorded { id: u32, donor: Address, ngo_id: u32, amount: i128 },
    ImpactVerified { donation_id: u32, verifier: Address },
    NgoRegistered { id: u32, wallet: Address },
    NgoVerified { ngo_id: u32, verified: bool },
    EscrowReleased { donation_id: u32, admin: Address },
    NftMinted { id: u32, owner: Address },
}

} // verus!
