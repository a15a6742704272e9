//! The owner registry: a write-once slot holding the controlling identity.

use vstd::prelude::*;

verus! {

/// The error that `initialize` returns.
#[derive(Clone, Copy, Debug, PartialEq, Eq, Structural)]
pub enum Error {
    /// An owner is already recorded; the slot is write-once.
    AlreadyInitialized,
}

/// The contract's durable state: the owner slot, empty until `initialize`
/// succeeds and never cleared or overwritten afterwards.
pub struct SimpleSmartWalletContract<A> {
    owner: Option<A>,
}

/// What `initialize` does to a slot: the slot afterwards and the result.
pub open spec fn initialize_spec<A>(slot: Option<A>, owner: A) -> (Option<A>, Result<(), Error>) {
    match slot {
        None => (Some(owner), Ok(())),
        Some(o) => (Some(o), Err(Error::AlreadyInitialized)),
    }
}

impl<A> View for SimpleSmartWalletContract<A> {
    type V = Option<A>;

    closed spec fn view(&self) -> Option<A> {
        self.owner
    }
}

impl<A> SimpleSmartWalletContract<A> {
    /// A freshly deployed contract: no owner recorded yet.
    pub fn new() -> (r: Self)
        ensures
            r@ is None,
    {
        SimpleSmartWalletContract { owner: None }
    }

    /// The contract as persisted: `slot` is what durable storage holds under
    /// the owner key.
    pub fn from_slot(slot: Option<A>) -> (r: Self)
        ensures
            r@ == slot,
    {
        SimpleSmartWalletContract { owner: slot }
    }

    /// Records `owner` if no owner is recorded yet; otherwise fails with
    /// `AlreadyInitialized` and leaves the slot as it was.
    pub fn initialize(&mut self, owner: A) -> (r: Result<(), Error>)
        ensures
            (final(self)@, r) == initialize_spec(old(self)@, owner),
    {
        if self.owner.is_some() {
            return Err(Error::AlreadyInitialized);
        }
        self.owner = Some(owner);
        Ok(())
    }

    /// The recorded owner, if any.
    pub fn owner(&self) -> (r: Option<&A>)
        ensures
            r == match self@ {
                Some(o) => Some(&o),
                None => None::<&A>,
            },
    {
        match &self.owner {
            Some(o) => Some(o),
            None => None,
        }
    }

    /// Whether an owner is recorded.
    pub fn is_initialized(&self) -> (r: bool)
        ensures
            r == self@ is Some,
    {
        self.owner.is_some()
    }
}

} // verus!
