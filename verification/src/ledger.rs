//! The ledger: the catalogue of items with the counter that mints their
//! identifiers, and the calls that change and read it.

use std::collections::HashMap;
use vstd::prelude::*;
use crate::address::Address;
use crate::error::Error;
use crate::item::{listing_error, Amount, Item, ItemInput};
use crate::model::{lemma_offers_keep_ids, StateView};

verus! {

broadcast use vstd::std_specs::hash::group_hash_axioms;

/// The ledger of the marketplace.
pub struct State {
    items: HashMap<u64, Item>,
    item_count: u64,
}

impl View for State {
    type V = StateView;

    closed spec fn view(&self) -> StateView {
        StateView {
            items: self.items@.map_values(|item: Item| item@),
            item_count: self.item_count,
        }
    }
}

/// Creates the ledger: nothing listed, the counter at zero.
pub fn init() -> (state: State)
    ensures
        state@ == StateView::empty(),
        state@.wf(),
{
    let state = State { items: HashMap::new(), item_count: 0 };
    assert(state@.items =~= Map::empty());
    state
}

/// The counter: how many identifiers have been minted.
pub fn get_item_count(state: &State) -> (count: u64)
    ensures
        count == state@.item_count,
{
    state.item_count
}

/// The item with identifier `id`, or `ItemNotFoundError` if there is none.
pub fn get_single_item(state: &State, id: u64) -> (r: Result<Item, Error>)
    ensures
        match r {
            Ok(item) => state@.items.contains_key(id) && item@ == state@.items[id],
            Err(e) => e == Error::ItemNotFoundError && !state@.items.contains_key(id),
        },
{
    match state.items.get(&id) {
        Some(item) => Ok(item.clone()),
        None => Err(Error::ItemNotFoundError),
    }
}

/// Lists a new item for `sender` and returns the identifier minted for it:
/// the counter's value before the call. Any caller may list. The input is
/// checked first, name, then supply, then image reference; the first check
/// that fails gives the error, and the ledger stays as it was.
pub fn add_item(state: &mut State, sender: Address, input: ItemInput) -> (r: Result<u64, Error>)
    requires
        old(state)@.wf(),
        old(state)@.item_count < u64::MAX,
    ensures
        final(state)@.wf(),
        final(state)@ == old(state)@.after_listing(sender, input@),
        match r {
            Ok(id) => listing_error(input@) is None && id == old(state)@.item_count,
            Err(e) => listing_error(input@) == Some(e),
        },
{
    match Item::new(input, sender) {
        Err(e) => Err(e),
        Ok(item) => {
            let id = state.item_count;
            let ghost listing = item@;
            state.items.insert(id, item);
            state.item_count += 1;
            assert(state@.items =~= old(state)@.items.insert(id, listing));
            Ok(id)
        },
    }
}

/// Offers `amount` in the name of `sender` for one unit of item `id`, and
/// says whether the unit was sold: it is if a unit is left and `amount`
/// covers the price. A refused offer changes nothing. Fails with
/// `ItemNotFoundError` if there is no such item.
pub fn buy_single_item(state: &mut State, sender: Address, amount: Amount, id: u64) -> (r: Result<
    bool,
    Error,
>)
    requires
        old(state)@.wf(),
    ensures
        final(state)@.wf(),
        final(state)@ == old(state)@.after_offer(sender, amount, id),
        match r {
            Ok(sold) => old(state)@.items.contains_key(id) && sold == old(state)@.sells(amount, id),
            Err(e) => e == Error::ItemNotFoundError && !old(state)@.items.contains_key(id),
        },
{
    match state.items.remove(&id) {
        None => {
            assert(state@.items =~= old(state)@.items);
            Err(Error::ItemNotFoundError)
        },
        Some(mut item) => {
            let sold = item.buy(sender, amount);
            let ghost after = item@;
            state.items.insert(id, item);
            assert(state@.items =~= old(state)@.items.insert(id, after));
            assert(state@.items =~= old(state)@.after_offer(sender, amount, id).items);
            Ok(sold)
        },
    }
}

/// Hands one unit of item `id` from `sender` to `new_owner`: the first owner
/// entry that is `sender` becomes `new_owner`, so the item has as many
/// owner entries as before. Fails with `ItemNotFoundError` if there is no
/// such item, and with `ItemNotOwnedError` if `sender` owns no unit of it;
/// either way the ledger stays as it was.
pub fn transfer_item(state: &mut State, sender: Address, id: u64, new_owner: Address) -> (r: Result<
    bool,
    Error,
>)
    requires
        old(state)@.wf(),
    ensures
        final(state)@.wf(),
        final(state)@ == old(state)@.after_transfer(sender, id, new_owner),
        match r {
            Ok(done) => {
                &&& done
                &&& old(state)@.items.contains_key(id)
                &&& old(state)@.items[id].owners.contains(sender)
            },
            Err(e) => if old(state)@.items.contains_key(id) {
                e == Error::ItemNotOwnedError && !old(state)@.items[id].owners.contains(sender)
            } else {
                e == Error::ItemNotFoundError
            },
        },
{
    match state.items.remove(&id) {
        None => {
            assert(state@.items =~= old(state)@.items);
            Err(Error::ItemNotFoundError)
        },
        Some(mut item) => {
            proof {
                item@.owners.index_of_first_ensures(sender);
            }
            let r = item.transfer(sender, new_owner);
            let ghost after = item@;
            state.items.insert(id, item);
            assert(state@.items =~= old(state)@.items.insert(id, after));
            assert(state@.items =~= old(state)@.after_transfer(sender, id, new_owner).items);
            r
        },
    }
}

/// Offers `amount` in the name of `sender` for one unit of each of `ids`, in
/// their order, and returns for each the identifier and whether the unit was
/// sold. An identifier that occurs twice is offered for twice. Every offer
/// is measured against the whole of `amount`: nothing is taken off it for
/// the units already sold. If one of `ids` names no item the call fails with
/// `ItemNotFoundError` and nothing is sold.
pub fn buy_item(state: &mut State, sender: Address, amount: Amount, ids: &[u64]) -> (r: Result<
    Vec<(u64, bool)>,
    Error,
>)
    requires
        old(state)@.wf(),
    ensures
        final(state)@.wf(),
        match r {
            Ok(sales) => {
                &&& forall|i: int| 0 <= i < ids@.len() ==> old(state)@.items.contains_key(ids@[i])
                &&& sales@ == old(state)@.outcomes(sender, amount, ids@)
                &&& final(state)@ == old(state)@.after_offers(sender, amount, ids@)
            },
            Err(e) => {
                &&& e == Error::ItemNotFoundError
                &&& exists|i: int| 0 <= i < ids@.len() && !old(state)@.items.contains_key(ids@[i])
                &&& final(state)@ == old(state)@
            },
        },
{
    let mut k: usize = 0;
    while k < ids.len()
        invariant
            k <= ids.len(),
            state@.wf(),
            state@ == old(state)@,
            forall|i: int| 0 <= i < k ==> state@.items.contains_key(ids@[i]),
        decreases ids.len() - k,
    {
        if !state.items.contains_key(&ids[k]) {
            return Err(Error::ItemNotFoundError);
        }
        k += 1;
    }
    let ghost before = state@;
    let mut sales: Vec<(u64, bool)> = Vec::new();
    let mut n: usize = 0;
    while n < ids.len()
        invariant
            n <= ids.len(),
            before.wf(),
            state@.wf(),
            forall|i: int| 0 <= i < ids@.len() ==> before.items.contains_key(ids@[i]),
            state@ == before.after_offers(sender, amount, ids@.take(n as int)),
            sales@ == before.outcomes(sender, amount, ids@.take(n as int)),
        decreases ids.len() - n,
    {
        let id = ids[n];
        proof {
            assert(ids@.take(n + 1).drop_last() =~= ids@.take(n as int));
            assert(ids@.take(n + 1).last() == id);
            lemma_offers_keep_ids(before, sender, amount, ids@.take(n as int));
            assert(before.items.contains_key(ids@[n as int]));
        }
        match buy_single_item(state, sender, amount, id) {
            Ok(sold) => {
                sales.push((id, sold));
            },
            Err(_) => {
                assert(false);
            },
        }
        proof {
            let done = ids@.take(n as int);
            let next = ids@.take(n + 1);
            assert forall|i: int| 0 <= i < next.len() implies sales@[i] == before.outcomes(
                sender,
                amount,
                next,
            )[i] by {
                if i < n {
                    assert(next.take(i) =~= done.take(i));
                } else {
                    assert(next.take(i) =~= done);
                }
            }
            assert(sales@ =~= before.outcomes(sender, amount, next));
        }
        n += 1;
    }
    assert(ids@.take(n as int) =~= ids@);
    Ok(sales)
}

/// Every item of the catalogue with its identifier, in the order of the
/// identifiers.
pub fn get_items(state: &State) -> (all: Vec<(u64, Item)>)
    requires
        state@.wf(),
    ensures
        all@.len() == state@.item_count,
        forall|i: int|
            0 <= i < all@.len() ==> (#[trigger] all@[i]).0 == i && all@[i].1@
                == state@.items[i as u64],
{
    let mut all: Vec<(u64, Item)> = Vec::new();
    let mut id: u64 = 0;
    while id < state.item_count
        invariant
            state@.wf(),
            id <= state.item_count,
            all@.len() == id,
            forall|i: int|
                0 <= i < all@.len() ==> (#[trigger] all@[i]).0 == i && all@[i].1@
                    == state@.items[i as u64],
        decreases state.item_count - id,
    {
        assert(state@.items.contains_key(id));
        match state.items.get(&id) {
            Some(item) => {
                all.push((id, item.clone()));
            },
            None => {
                assert(false);
            },
        }
        id += 1;
    }
    all
}

/// Rebuilds a ledger from its items, the item with identifier `i` at
/// position `i`: what `get_items` returns, without the identifiers. Returns
/// `None` if one of the items is not well formed.
pub fn restore(items: &[Item]) -> (r: Option<State>)
    ensures
        match r {
            Some(state) => {
                &&& state@.wf()
                &&& state@.item_count == items@.len()
                &&& forall|i: int|
                    0 <= i < items@.len() ==> state@.items[i as u64] == (#[trigger] items@[i])@
            },
            None => exists|i: int| 0 <= i < items@.len() && !(#[trigger] items@[i])@.wf(),
        },
{
    let mut state = init();
    let mut n: usize = 0;
    while n < items.len()
        invariant
            n <= items.len(),
            state@.wf(),
            state@.item_count == n,
            forall|i: int| 0 <= i < n ==> state@.items[i as u64] == (#[trigger] items@[i])@,
        decreases items.len() - n,
    {
        if !items[n].is_valid() {
            return None;
        }
        let id = state.item_count;
        let item = items[n].clone();
        let ghost before = state@;
        state.items.insert(id, item);
        state.item_count += 1;
        assert(state@.items =~= before.items.insert(id, items@[n as int]@));
        n += 1;
    }
    Some(state)
}

} // verus!
