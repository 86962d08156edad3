//! Lists of subscription identifiers that live in the host environment, and the host's names for
//! accounts.
use soroban_sdk::TryFromVal;
use vstd::prelude::*;

verus! {

/// The host environment, as `soroban_sdk` hands it to a contract.
#[verifier::external_type_specification]
#[verifier::external_body]
pub struct ExEnv(soroban_sdk::Env);

/// A list that is kept by the host environment.
#[verifier::external_type_specification]
#[verifier::external_body]
#[verifier::reject_recursive_types(T)]
pub struct ExHostVec<T>(soroban_sdk::Vec<T>);

/// The items of a host list. The host does not check the type of what a list holds: an item that is
/// not a 32-bit number stands as `None`.
pub uninterp spec fn host_items(list: soroban_sdk::Vec<u32>) -> Seq<Option<u32>>;

/// Every item is a 32-bit number.
pub open spec fn holds_numbers(items: Seq<Option<u32>>) -> bool {
    forall|i: int| 0 <= i < items.len() ==> #[trigger] items[i] is Some
}

/// The numbers that a list holds.
pub open spec fn as_numbers(items: Seq<Option<u32>>) -> Seq<u32> {
    items.map_values(|item: Option<u32>| item->0)
}

/// `soroban_sdk::Env::default` gives a fresh host environment, and `reset_unlimited` on its budget
/// lifts the limit on what calls into it may use up. Nothing is claimed of the environment.
#[verifier::external_body]
pub(crate) fn new_environment() -> (env: soroban_sdk::Env) {
    let env = soroban_sdk::Env::default();
    env.cost_estimate().budget().reset_unlimited();
    env
}

/// `soroban_sdk::Vec::new` gives a list without items. The host meters every call and stops one that
/// goes over its budget, so here and below the limit is lifted before the call; once lifted, no call
/// goes over it.
#[verifier::external_body]
fn host_list_new(env: &soroban_sdk::Env) -> (list: soroban_sdk::Vec<u32>)
    ensures
        host_items(list) == Seq::<Option<u32>>::empty(),
{
    env.cost_estimate().budget().reset_unlimited();
    soroban_sdk::Vec::new(env)
}

/// `soroban_sdk::Vec::push_back` adds one item at the end of a list. A list holds no more items than
/// a 32-bit number counts.
#[verifier::external_body]
fn host_list_push_back(list: &mut soroban_sdk::Vec<u32>, id: u32)
    requires
        host_items(*old(list)).len() < u32::MAX,
    ensures
        host_items(*final(list)) == host_items(*old(list)).push(Some(id)),
{
    list.env().cost_estimate().budget().reset_unlimited();
    list.push_back(id)
}

/// `soroban_sdk::Vec::len` counts the items of a list, whatever their type.
#[verifier::external_body]
pub(crate) fn host_list_len(list: &soroban_sdk::Vec<u32>) -> (len: u32)
    ensures
        len == host_items(*list).len(),
{
    list.env().cost_estimate().budget().reset_unlimited();
    list.len()
}

/// `soroban_sdk::Vec::try_get` reads the item at a place of a list. There is none past the end, and
/// an item that is not a 32-bit number is reported as an error.
#[verifier::external_body]
pub(crate) fn host_list_get(list: &soroban_sdk::Vec<u32>, position: u32) -> (item: Option<u32>)
    ensures
        item == (if position < host_items(*list).len() {
            host_items(*list)[position as int]
        } else {
            None
        }),
{
    list.env().cost_estimate().budget().reset_unlimited();
    match list.try_get(position) {
        Ok(item) => item,
        Err(_) => None,
    }
}

/// The key under which the host knows the account with number `id`.
pub uninterp spec fn account_key(id: u64) -> Seq<char>;

/// The `Debug` text of a `soroban_sdk::Address`: of a contract the host writes the key, in brackets
/// behind the word `Contract`. The account with number `id` is the contract whose identifier ends in
/// that number, which is how `Address::generate` numbers accounts. The key depends on the number
/// alone; which characters it is made of is left unsaid.
#[verifier::external_body]
pub(crate) fn host_account_text(env: &soroban_sdk::Env, id: u64) -> (text: String)
    ensures
        text@ == "Contract("@ + account_key(id) + ")"@,
{
    env.cost_estimate().budget().reset_unlimited();
    let mut key = [0u8; 32];
    key[24..].copy_from_slice(&id.to_be_bytes());
    let identifier = soroban_sdk::xdr::ContractId(soroban_sdk::xdr::Hash(key));
    let contract = soroban_sdk::xdr::ScAddress::Contract(identifier);
    format!("{:?}", soroban_sdk::Address::try_from_val(env, &contract).unwrap())
}

/// Puts identifiers into a host list, in their order.
pub fn host_list_of(env: &soroban_sdk::Env, ids: &[u32]) -> (list: soroban_sdk::Vec<u32>)
    requires
        ids@.len() <= u32::MAX,
    ensures
        holds_numbers(host_items(list)),
        as_numbers(host_items(list)) == ids@,
{
    let mut list = host_list_new(env);
    let mut i: usize = 0;
    while i < ids.len()
        invariant
            i <= ids@.len() <= u32::MAX,
            host_items(list).len() == i,
            forall|j: int| 0 <= j < i ==> #[trigger] host_items(list)[j] == Some(ids@[j]),
        decreases ids@.len() - i,
    {
        host_list_push_back(&mut list, ids[i]);
        i += 1;
    }
    assert(as_numbers(host_items(list)) =~= ids@);
    list
}

} // verus!
