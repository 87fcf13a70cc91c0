//! One listing of the catalogue, and what can happen to it.

use vstd::prelude::*;
use crate::address::Address;
use crate::error::Error;
use crate::text::{trim, trimmed};

verus! {

/// An amount of the native payment unit, counted in its smallest part.
#[derive(Clone, Copy, Debug, PartialEq, Eq, Structural)]
pub struct Amount {
    pub micro_ccd: u64,
}

/// What a caller hands in to list an item.
#[derive(Debug, PartialEq, Eq)]
pub struct ItemInput {
    pub name: String,
    pub price: Amount,
    pub total_supply: u64,
    pub image_url: String,
}

/// One listing.
#[derive(Debug, PartialEq, Eq)]
pub struct Item {
    pub name: String,
    pub price: Amount,
    pub total_supply: u64,
    pub image_url: String,
    /// Units sold so far.
    pub sold: u64,
    /// Who listed the item.
    pub creator: Address,
    /// One entry for each unit sold: who holds it now.
    pub owners: Vec<Address>,
}

/// The mathematical value of an [`ItemInput`].
pub struct ItemInputView {
    pub name: Seq<char>,
    pub price: Amount,
    pub total_supply: u64,
    pub image_url: Seq<char>,
}

/// The mathematical value of an [`Item`].
pub struct ItemView {
    pub name: Seq<char>,
    pub price: Amount,
    pub total_supply: u64,
    pub image_url: Seq<char>,
    pub sold: u64,
    pub creator: Address,
    pub owners: Seq<Address>,
}

impl View for ItemInput {
    type V = ItemInputView;

    open spec fn view(&self) -> ItemInputView {
        ItemInputView {
            name: self.name@,
            price: self.price,
            total_supply: self.total_supply,
            image_url: self.image_url@,
        }
    }
}

impl View for Item {
    type V = ItemView;

    open spec fn view(&self) -> ItemView {
        ItemView {
            name: self.name@,
            price: self.price,
            total_supply: self.total_supply,
            image_url: self.image_url@,
            sold: self.sold,
            creator: self.creator,
            owners: self.owners@,
        }
    }
}

impl Clone for ItemInput {
    fn clone(&self) -> (r: ItemInput)
        ensures
            r@ == self@,
    {
        ItemInput {
            name: self.name.clone(),
            price: self.price,
            total_supply: self.total_supply,
            image_url: self.image_url.clone(),
        }
    }
}

impl Clone for Item {
    fn clone(&self) -> (r: Item)
        ensures
            r@ == self@,
    {
        let mut owners: Vec<Address> = Vec::new();
        let mut i: usize = 0;
        while i < self.owners.len()
            invariant
                i <= self.owners.len(),
                owners@ == self.owners@.take(i as int),
            decreases self.owners.len() - i,
        {
            owners.push(self.owners[i]);
            assert(self.owners@.take(i + 1) =~= self.owners@.take(i as int).push(
                self.owners@[i as int],
            ));
            i += 1;
        }
        assert(self.owners@.take(i as int) =~= self.owners@);
        Item {
            name: self.name.clone(),
            price: self.price,
            total_supply: self.total_supply,
            image_url: self.image_url.clone(),
            sold: self.sold,
            creator: self.creator,
            owners,
        }
    }
}

/// Why `input` cannot be listed, if it cannot: the first of the three checks
/// that fails, the name's before the supply's before the image reference's.
pub open spec fn listing_error(input: ItemInputView) -> Option<Error> {
    if trimmed(input.name).len() == 0 {
        Some(Error::NameLengthError)
    } else if input.total_supply == 0 {
        Some(Error::TotalSupplyError)
    } else if trimmed(input.image_url).len() == 0 {
        Some(Error::ImageUrlError)
    } else {
        None
    }
}

/// The item that listing `input` creates for `creator`: nothing sold, nobody
/// owning, the two texts trimmed.
pub open spec fn listed(input: ItemInputView, creator: Address) -> ItemView {
    ItemView {
        name: trimmed(input.name),
        price: input.price,
        total_supply: input.total_supply,
        image_url: trimmed(input.image_url),
        sold: 0,
        creator,
        owners: Seq::empty(),
    }
}

impl ItemView {
    /// What holds of every item of the catalogue: it has a name, an image
    /// reference and a positive supply, it has sold no more than its supply,
    /// and it has one owner entry for each unit sold.
    pub open spec fn wf(self) -> bool {
        &&& self.name.len() > 0
        &&& self.total_supply > 0
        &&& self.image_url.len() > 0
        &&& self.sold <= self.total_supply
        &&& self.owners.len() == self.sold
    }

    /// Whether a unit is left and `amount` covers the price.
    pub open spec fn sells_for(self, amount: Amount) -> bool {
        self.sold < self.total_supply && self.price.micro_ccd <= amount.micro_ccd
    }

    /// The item once `buyer` has bought a unit: one more sold, and `buyer`
    /// appended to the owners.
    pub open spec fn bought_by(self, buyer: Address) -> ItemView {
        ItemView { sold: (self.sold + 1) as u64, owners: self.owners.push(buyer), ..self }
    }

    /// The item once `buyer` has offered `amount` for a unit: bought if it
    /// sells for `amount`, unchanged if it does not.
    pub open spec fn after_offer(self, buyer: Address, amount: Amount) -> ItemView {
        if self.sells_for(amount) {
            self.bought_by(buyer)
        } else {
            self
        }
    }

    /// The item once `from` has handed a unit to `to`: the first owner
    /// entry that is `from` now reads `to`. Unchanged if `from` owns none.
    pub open spec fn after_transfer(self, from: Address, to: Address) -> ItemView {
        match self.owners.index_of_first(from) {
            Some(i) => ItemView { owners: self.owners.update(i, to), ..self },
            None => self,
        }
    }
}

impl Item {
    /// Builds the item that `input` lists for `creator`, or says why it
    /// cannot be listed.
    pub fn new(input: ItemInput, creator: Address) -> (r: Result<Item, Error>)
        ensures
            match r {
                Ok(item) => listing_error(input@) is None && item@ == listed(input@, creator),
                Err(e) => listing_error(input@) == Some(e),
            },
    {
        let name = trim(input.name.as_str()).to_owned();
        let image_url = trim(input.image_url.as_str()).to_owned();
        if name.as_str().is_empty() {
            return Err(Error::NameLengthError);
        }
        if input.total_supply == 0 {
            return Err(Error::TotalSupplyError);
        }
        if image_url.as_str().is_empty() {
            return Err(Error::ImageUrlError);
        }
        Ok(
            Item {
                name,
                price: input.price,
                total_supply: input.total_supply,
                image_url,
                sold: 0,
                creator,
                owners: Vec::new(),
            },
        )
    }

    /// Whether the item is one that the catalogue can hold.
    pub fn is_valid(&self) -> (r: bool)
        ensures
            r == self@.wf(),
    {
        !self.name.as_str().is_empty() && self.total_supply > 0
            && !self.image_url.as_str().is_empty() && self.sold <= self.total_supply
            && self.owners.len() as u64 == self.sold
    }

    /// Sells one unit to `buyer` if a unit is left and `amount` covers the
    /// price, and says whether it did. A refused offer changes nothing.
    pub fn buy(&mut self, buyer: Address, amount: Amount) -> (sold: bool)
        ensures
            sold == old(self)@.sells_for(amount),
            final(self)@ == old(self)@.after_offer(buyer, amount),
    {
        if self.sold < self.total_supply && self.price.micro_ccd <= amount.micro_ccd {
            self.owners.push(buyer);
            self.sold += 1;
            true
        } else {
            false
        }
    }

    /// The position of the first owner entry that is `who`.
    pub fn position_of(&self, who: Address) -> (r: Option<usize>)
        ensures
            match r {
                Some(i) => self@.owners.index_of_first(who) == Some(i as int),
                None => self@.owners.index_of_first(who) is None,
            },
    {
        let mut i: usize = 0;
        while i < self.owners.len()
            invariant
                i <= self.owners.len(),
                forall|j: int| 0 <= j < i ==> self.owners@[j] != who,
            decreases self.owners.len() - i,
        {
            if self.owners[i] == who {
                proof {
                    self@.owners.index_of_first_ensures(who);
                    assert(self@.owners[i as int] == who);
                }
                return Some(i);
            }
            i += 1;
        }
        proof {
            self@.owners.index_of_first_ensures(who);
        }
        None
    }

    /// Hands one unit from `caller` to `new_owner`. Fails with
    /// `ItemNotOwnedError`, changing nothing, if `caller` owns no unit.
    pub fn transfer(&mut self, caller: Address, new_owner: Address) -> (r: Result<bool, Error>)
        ensures
            match r {
                Ok(done) => {
                    &&& done
                    &&& old(self)@.owners.contains(caller)
                    &&& final(self)@ == old(self)@.after_transfer(caller, new_owner)
                },
                Err(e) => {
                    &&& e == Error::ItemNotOwnedError
                    &&& !old(self)@.owners.contains(caller)
                    &&& final(self)@ == old(self)@
                },
            },
    {
        proof {
            self@.owners.index_of_first_ensures(caller);
        }
        match self.position_of(caller) {
            None => Err(Error::ItemNotOwnedError),
            Some(i) => {
                self.owners.push(new_owner);
                self.owners.swap_remove(i);
                assert(self.owners@ =~= old(self).owners@.update(i as int, new_owner));
                Ok(true)
            },
        }
    }
}

} // verus!
