//! Maps keyed by accounts.
use crate::address::Address;
use std::collections::HashMap;
use vstd::prelude::*;

verus! {

broadcast use vstd::std_specs::hash::group_hash_axioms;

/// A map from accounts to values.
pub struct AccountMap<V> {
    entries: HashMap<u64, V>,
}

impl<V> View for AccountMap<V> {
    type V = Map<Address, V>;

    closed spec fn view(&self) -> Map<Address, V> {
        Map::new(
            |account: Address| self.entries@.contains_key(account.id),
            |account: Address| self.entries@[account.id],
        )
    }
}

impl<V> AccountMap<V> {
    pub fn new() -> (map: AccountMap<V>)
        ensures
            map@ == Map::<Address, V>::empty(),
    {
        let map = AccountMap { entries: HashMap::new() };
        assert(map@ =~= Map::<Address, V>::empty());
        map
    }

    pub fn contains(&self, account: Address) -> (found: bool)
        ensures
            found == self@.contains_key(account),
    {
        self.entries.contains_key(&account.id)
    }

    pub fn get(&self, account: Address) -> (value: Option<&V>)
        ensures
            value == (if self@.contains_key(account) {
                Some(&self@[account])
            } else {
                None
            }),
    {
        self.entries.get(&account.id)
    }

    pub fn insert(&mut self, account: Address, value: V)
        ensures
            final(self)@ == old(self)@.insert(account, value),
    {
        self.entries.insert(account.id, value);
        assert(self@ =~= old(self)@.insert(account, value));
    }

    /// Takes the value of `account` out.
    pub fn remove(&mut self, account: Address) -> (value: Option<V>)
        ensures
            final(self)@ == old(self)@.remove(account),
            value == (if old(self)@.contains_key(account) {
                Some(old(self)@[account])
            } else {
                None
            }),
    {
        let value = self.entries.remove(&account.id);
        assert(self@ =~= old(self)@.remove(account));
        value
    }
}

/// The place of a pair of accounts among all pairs.
spec fn pair_key(pair: (Address, Address)) -> int {
    pair.0.id * 0x1_0000_0000_0000_0000 + pair.1.id
}

/// Amounts of tokens, by account and token.
pub struct AmountBook {
    entries: HashMap<u128, i128>,
}

impl View for AmountBook {
    type V = Map<(Address, Address), i128>;

    closed spec fn view(&self) -> Map<(Address, Address), i128> {
        Map::new(
            |pair: (Address, Address)| self.entries@.contains_key(pair_key(pair) as u128),
            |pair: (Address, Address)| self.entries@[pair_key(pair) as u128],
        )
    }
}

impl AmountBook {
    pub fn new() -> (book: AmountBook)
        ensures
            book@ == Map::<(Address, Address), i128>::empty(),
    {
        let book = AmountBook { entries: HashMap::new() };
        assert(book@ =~= Map::<(Address, Address), i128>::empty());
        book
    }

    fn key(account: Address, token: Address) -> (key: u128)
        ensures
            key == pair_key((account, token)),
    {
        account.id as u128 * 0x1_0000_0000_0000_0000u128 + token.id as u128
    }

    /// The amount entered for `account` in `token`.
    pub fn get(&self, account: Address, token: Address) -> (amount: Option<i128>)
        ensures
            amount == (if self@.contains_key((account, token)) {
                Some(self@[(account, token)])
            } else {
                None
            }),
    {
        let key: u128 = AmountBook::key(account, token);
        match self.entries.get(&key) {
            Some(amount) => Some(*amount),
            None => None,
        }
    }

    /// Enters an amount for `account` in `token`.
    pub fn set(&mut self, account: Address, token: Address, amount: i128)
        ensures
            final(self)@ == old(self)@.insert((account, token), amount),
    {
        let key: u128 = AmountBook::key(account, token);
        self.entries.insert(key, amount);
        assert(self@ =~= old(self)@.insert((account, token), amount)) by {
            assert forall|pair: (Address, Address)|
                #[trigger] pair_key(pair) == pair_key((account, token)) implies pair == (account, token) by {}
        }
    }
}

/// The identifiers listed under `owner`, oldest first.
pub open spec fn listed(index: Map<Address, Seq<u32>>, owner: Address) -> Seq<u32> {
    if index.contains_key(owner) {
        index[owner]
    } else {
        Seq::empty()
    }
}

/// Lists of subscription identifiers, by account, in the order in which they were added.
pub struct IdIndex {
    lists: AccountMap<Vec<u32>>,
}

impl View for IdIndex {
    type V = Map<Address, Seq<u32>>;

    closed spec fn view(&self) -> Map<Address, Seq<u32>> {
        self.lists@.map_values(|ids: Vec<u32>| ids@)
    }
}

impl IdIndex {
    pub fn new() -> (index: IdIndex)
        ensures
            index@ == Map::<Address, Seq<u32>>::empty(),
    {
        let index = IdIndex { lists: AccountMap::new() };
        assert(index@ =~= Map::<Address, Seq<u32>>::empty());
        index
    }

    /// Adds `id` at the end of the list of `owner`.
    pub fn add_id(&mut self, owner: Address, id: u32)
        ensures
            final(self)@ == old(self)@.insert(owner, listed(old(self)@, owner).push(id)),
    {
        let mut ids = match self.lists.remove(owner) {
            Some(ids) => ids,
            None => Vec::new(),
        };
        ids.push(id);
        self.lists.insert(owner, ids);
        assert(self@ =~= old(self)@.insert(owner, listed(old(self)@, owner).push(id)));
    }

    /// How many identifiers are listed under `owner`.
    pub fn count(&self, owner: Address) -> (count: usize)
        ensures
            count == listed(self@, owner).len(),
    {
        match self.lists.get(owner) {
            Some(ids) => ids.len(),
            None => 0,
        }
    }

    /// The identifier at place `position` of the list of `owner`.
    pub fn id_at(&self, owner: Address, position: usize) -> (id: u32)
        requires
            position < listed(self@, owner).len(),
        ensures
            id == listed(self@, owner)[position as int],
    {
        match self.lists.get(owner) {
            Some(ids) => ids[position],
            None => 0,
        }
    }
}

} // verus!
