//! Account identities.
use vstd::prelude::*;

verus! {

/// An account: a subscriber, a merchant, the admin, a token contract or a treasury.
#[derive(Debug, Clone, Copy, PartialEq, Eq, Structural)]
pub struct Address {
    pub id: u64,
}

/// Hands out accounts that have never been handed out before, numbered from one on.
pub struct AddressGenerator {
    last: u64,
}

impl AddressGenerator {
    /// The accounts that this generator has already handed out.
    pub closed spec fn issued(&self) -> Set<Address> {
        Set::new(|a: Address| 1 <= a.id <= self.last)
    }

    /// The account that is handed out after `n` others.
    pub closed spec fn ahead(&self, n: nat) -> Address {
        Address { id: (self.last + 1 + n) as u64 }
    }

    /// The account that is handed out next.
    pub open spec fn upcoming(&self) -> Address {
        self.ahead(0)
    }

    /// The next `n` accounts that are handed out.
    pub open spec fn next_accounts(&self, n: nat) -> Set<Address> {
        Set::new(|account: Address| exists|i: nat| i < n && account == #[trigger] self.ahead(i))
    }

    /// How many more accounts can be handed out.
    pub closed spec fn remaining(&self) -> nat {
        (u64::MAX - self.last) as nat
    }

    /// The account that is handed out next has not been handed out yet.
    pub proof fn law_upcoming_is_unused(&self)
        requires
            self.remaining() > 0,
        ensures
            !self.issued().contains(self.upcoming()),
    {
    }

    /// No account that is still ahead has been handed out, and no two of them are the same.
    pub proof fn law_ahead_is_unused(&self, count: nat)
        requires
            count <= self.remaining(),
        ensures
            forall|i: nat| i < count ==> !self.issued().contains(#[trigger] self.ahead(i)),
            forall|i: nat, j: nat|
                i < j < count ==> #[trigger] self.ahead(i) != #[trigger] self.ahead(j),
    {
    }

    pub fn new() -> (generator: AddressGenerator)
        ensures
            generator.issued() == Set::<Address>::empty(),
            generator.remaining() == u64::MAX,
    {
        let generator = AddressGenerator { last: 0 };
        assert(generator.issued() =~= Set::<Address>::empty());
        generator
    }

    /// Hands out a fresh account.
    pub fn generate(&mut self) -> (address: Address)
        requires
            old(self).remaining() > 0,
        ensures
            address == old(self).upcoming(),
            !old(self).issued().contains(address),
            final(self).issued() == old(self).issued().insert(address),
            final(self).remaining() == old(self).remaining() - 1,
            forall|n: nat| #[trigger] final(self).ahead(n) == old(self).ahead(n + 1),
    {
        self.last = self.last + 1;
        let address = Address { id: self.last };
        assert(self.issued() =~= old(self).issued().insert(address));
        address
    }
}

} // verus!
