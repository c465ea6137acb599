use vstd::prelude::*;
use crate::types::{Address, Error};

verus! {

/// The token manager. Value movement is not modelled: it only checks its
/// inputs and remembers whether it was initialised.
pub struct TokenManager {
    initialized: bool,
}

impl TokenManager {
    /// Whether `initialize` has succeeded.
    pub closed spec fn is_initialized(&self) -> bool {
        self.initialized
    }

    /// A manager that is not initialised.
    pub fn new() -> (r: Self)
        ensures
            !r.is_initialized(),
    {
        TokenManager { initialized: false }
    }

    /// Marks the manager initialised; fails if it already was.
    pub fn initialize(&mut self) -> (r: Result<(), Error>)
        ensures
            old(self).is_initialized() ==> r == Err::<(), Error>(Error::AlreadyInitialized),
            !old(self).is_initialized() ==> r is Ok,
            final(self).is_initialized(),
    {
        if self.initialized {
            return Err(Error::AlreadyInitialized);
        }
        self.initialized = true;
        Ok(())
    }

    /// Accepts a deposit from `from` (already authenticated by the host);
    /// only a positive amount is accepted.
    pub fn deposit(&self, from: Address, amount: i128) -> (r: Result<(), Error>)
        ensures
            amount <= 0 ==> r == Err::<(), Error>(Error::InvalidAmount),
            amount > 0 ==> r is Ok,
    {
        if amount <= 0 {
            return Err(Error::InvalidAmount);
        }
        Ok(())
    }

    /// Pays `amount` out to `to`. Value movement is not modelled, so this
    /// leaves the manager as it is.
    pub fn withdraw(&self, to: Address, amount: i128) {
    }
}

} // verus!
