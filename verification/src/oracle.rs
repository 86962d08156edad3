//! A price source for trying the vault out.
use crate::types::OraclePrice;
use vstd::prelude::*;

verus! {

/// Reports the price that it was last given.
pub struct MockOracle {
    price: Option<OraclePrice>,
}

impl MockOracle {
    /// The price that was last given, and zero before that.
    pub closed spec fn current(&self) -> OraclePrice {
        match self.price {
            Some(price) => price,
            None => OraclePrice { price: 0, timestamp: 0 },
        }
    }

    pub fn new() -> (oracle: MockOracle)
        ensures
            oracle.current() == (OraclePrice { price: 0, timestamp: 0 }),
    {
        MockOracle { price: None }
    }

    /// Gives the oracle a price.
    pub fn set_price(&mut self, price: i128, timestamp: u64)
        ensures
            final(self).current() == (OraclePrice { price, timestamp }),
    {
        self.price = Some(OraclePrice { price, timestamp });
    }

    /// The price that was last given, and zero before that.
    pub fn latest_price(&self) -> (price: OraclePrice)
        ensures
            price == self.current(),
    {
        match self.price {
            Some(price) => price,
            None => OraclePrice { price: 0, timestamp: 0 },
        }
    }
}

} // verus!
