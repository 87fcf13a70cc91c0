//! The ledger as a mathematical value, and what each call makes of it.

use vstd::prelude::*;
use crate::address::Address;
use crate::item::{listed, listing_error, Amount, ItemInputView, ItemView};

verus! {

/// The mathematical value of a [`State`].
pub struct StateView {
    /// The catalogue: each identifier minted so far, with its item.
    pub items: Map<u64, ItemView>,
    /// The identifier that the next listing gets.
    pub item_count: u64,
}

impl StateView {
    /// What holds of every ledger: the identifiers in use are exactly those
    /// below the counter, and every item is well formed.
    pub open spec fn wf(self) -> bool {
        &&& forall|id: u64| #[trigger] self.items.contains_key(id) <==> id < self.item_count
        &&& forall|id: u64| #[trigger] self.items.contains_key(id) ==> self.items[id].wf()
    }

    /// The ledger with nothing listed.
    pub open spec fn empty() -> StateView {
        StateView { items: Map::empty(), item_count: 0 }
    }

    /// The ledger once `creator` has asked to list `input`: the new item
    /// stands under the counter's value and the counter is one higher, or,
    /// if `input` cannot be listed, nothing has changed.
    pub open spec fn after_listing(self, creator: Address, input: ItemInputView) -> StateView {
        if listing_error(input) is None {
            StateView {
                items: self.items.insert(self.item_count, listed(input, creator)),
                item_count: (self.item_count + 1) as u64,
            }
        } else {
            self
        }
    }

    /// Whether item `id` exists and sells for `amount`.
    pub open spec fn sells(self, amount: Amount, id: u64) -> bool {
        self.items.contains_key(id) && self.items[id].sells_for(amount)
    }

    /// The ledger once `buyer` has offered `amount` for a unit of item `id`:
    /// the item bought if it sells for `amount`, the ledger unchanged if it
    /// does not or if there is no such item.
    pub open spec fn after_offer(self, buyer: Address, amount: Amount, id: u64) -> StateView {
        if self.sells(amount, id) {
            StateView { items: self.items.insert(id, self.items[id].bought_by(buyer)), ..self }
        } else {
            self
        }
    }

    /// The ledger once `buyer` has offered `amount` for each of `ids` in
    /// turn. Every offer is measured against the whole of `amount`.
    pub open spec fn after_offers(self, buyer: Address, amount: Amount, ids: Seq<u64>) -> StateView
        decreases ids.len(),
    {
        if ids.len() == 0 {
            self
        } else {
            self.after_offers(buyer, amount, ids.drop_last()).after_offer(
                buyer,
                amount,
                ids.last(),
            )
        }
    }

    /// What `buyer` is told of the offers for `ids`: for each position the
    /// identifier, and whether the item sold in the ledger as the offers
    /// before it had left it.
    pub open spec fn outcomes(self, buyer: Address, amount: Amount, ids: Seq<u64>) -> Seq<
        (u64, bool),
    > {
        Seq::new(
            ids.len(),
            |i: int| (ids[i], self.after_offers(buyer, amount, ids.take(i)).sells(amount, ids[i])),
        )
    }

    /// Whether item `id` exists and `who` owns a unit of it.
    pub open spec fn owns(self, who: Address, id: u64) -> bool {
        self.items.contains_key(id) && self.items[id].owners.contains(who)
    }

    /// The ledger once `caller` has handed a unit of item `id` to
    /// `new_owner`. Unchanged if there is no such item or `caller` owns
    /// no unit of it.
    pub open spec fn after_transfer(self, caller: Address, id: u64, new_owner: Address) -> StateView {
        if self.owns(caller, id) {
            StateView {
                items: self.items.insert(id, self.items[id].after_transfer(caller, new_owner)),
                ..self
            }
        } else {
            self
        }
    }
}

/// Offers for units change no item's identifier: the ledger holds the same
/// identifiers after them, and the same counter.
pub proof fn lemma_offers_keep_ids(s: StateView, buyer: Address, amount: Amount, ids: Seq<u64>)
    ensures
        s.after_offers(buyer, amount, ids).items.dom() == s.items.dom(),
        s.after_offers(buyer, amount, ids).item_count == s.item_count,
    decreases ids.len(),
{
    if ids.len() > 0 {
        lemma_offers_keep_ids(s, buyer, amount, ids.drop_last());
        let mid = s.after_offers(buyer, amount, ids.drop_last());
        assert(mid.after_offer(buyer, amount, ids.last()).items.dom() =~= mid.items.dom());
    }
}

} // verus!
