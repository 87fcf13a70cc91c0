//! What holds of the ledger whatever is listed, bought and handed over.

use vstd::prelude::*;
use crate::address::Address;
use crate::error::Error;
use crate::item::{listed, listing_error, Amount, ItemInputView, ItemView};
use crate::model::StateView;
use crate::text::{is_blank, lemma_trimmed_empty_iff_blank};

verus! {

/// A listing that passes the checks gets the counter's value as its
/// identifier, and raises the counter by exactly one.
pub proof fn law_listing_mints_counter(s: StateView, creator: Address, input: ItemInputView)
    requires
        s.wf(),
        s.item_count < u64::MAX,
        listing_error(input) is None,
    ensures
        s.after_listing(creator, input).item_count == s.item_count + 1,
        !s.items.contains_key(s.item_count),
        s.after_listing(creator, input).items.contains_key(s.item_count),
        s.after_listing(creator, input).items[s.item_count] == listed(input, creator),
{
}

/// A listing is checked name first, then supply, then image reference: a
/// blank name gives `NameLengthError` whatever else is wrong; a supply of
/// zero gives `TotalSupplyError` unless the name is blank; a blank image
/// reference gives `ImageUrlError` unless one of the others does; and
/// nothing else is refused.
pub proof fn law_listing_checks_in_order(input: ItemInputView)
    ensures
        listing_error(input) == if is_blank(input.name) {
            Some(Error::NameLengthError)
        } else if input.total_supply == 0 {
            Some(Error::TotalSupplyError)
        } else if is_blank(input.image_url) {
            Some(Error::ImageUrlError)
        } else {
            None::<Error>
        },
{
    lemma_trimmed_empty_iff_blank(input.name);
    lemma_trimmed_empty_iff_blank(input.image_url);
}

/// A listing that is refused leaves the ledger as it was.
pub proof fn law_refused_listing_changes_nothing(
    s: StateView,
    creator: Address,
    input: ItemInputView,
)
    requires
        listing_error(input) is Some,
    ensures
        s.after_listing(creator, input) == s,
{
}

/// The identifiers in use are those that were minted: the ones below the
/// counter, and no other.
pub proof fn law_found_iff_minted(s: StateView, id: u64)
    requires
        s.wf(),
    ensures
        s.items.contains_key(id) <==> id < s.item_count,
{
}

/// An item stays as it is while other items are listed, bought or handed
/// over: each call changes at most the item it names.
pub proof fn law_other_items_stay(
    s: StateView,
    id: u64,
    who: Address,
    amount: Amount,
    other: u64,
    to: Address,
    input: ItemInputView,
)
    requires
        s.wf(),
        s.items.contains_key(id),
        other != id,
    ensures
        s.after_listing(who, input).items.contains_key(id),
        s.after_listing(who, input).items[id] == s.items[id],
        s.after_offer(who, amount, other).items.contains_key(id),
        s.after_offer(who, amount, other).items[id] == s.items[id],
        s.after_transfer(who, other, to).items.contains_key(id),
        s.after_transfer(who, other, to).items[id] == s.items[id],
{
}

/// An offer for a unit is taken exactly when a unit is left and the amount
/// covers the price. Taken, it raises the number sold by one and appends
/// the buyer to the owners; refused, it changes nothing.
pub proof fn law_offer(s: StateView, buyer: Address, amount: Amount, id: u64)
    requires
        s.wf(),
        s.items.contains_key(id),
    ensures
        s.sells(amount, id) <==> s.items[id].sold < s.items[id].total_supply
            && s.items[id].price.micro_ccd <= amount.micro_ccd,
        s.sells(amount, id) ==> {
            let after = s.after_offer(buyer, amount, id).items[id];
            &&& after.sold == s.items[id].sold + 1
            &&& after.owners == s.items[id].owners.push(buyer)
            &&& after.owners.contains(buyer)
        },
        !s.sells(amount, id) ==> s.after_offer(buyer, amount, id) == s,
{
    if s.sells(amount, id) {
        let after = s.after_offer(buyer, amount, id).items[id];
        assert(after.owners[after.owners.len() - 1] == buyer);
    }
}

/// A batch of offers is the offers one after the other: none for an empty
/// batch, and for a batch with one more identifier the batch before it,
/// then the offer for that identifier. The caller is told one outcome for
/// each identifier, in the order given.
pub proof fn law_batch_is_offers_in_turn(
    s: StateView,
    buyer: Address,
    amount: Amount,
    ids: Seq<u64>,
    id: u64,
)
    ensures
        s.after_offers(buyer, amount, Seq::empty()) == s,
        s.after_offers(buyer, amount, ids.push(id)) == s.after_offers(buyer, amount, ids).after_offer(
            buyer,
            amount,
            id,
        ),
        s.outcomes(buyer, amount, ids).len() == ids.len(),
        forall|i: int| 0 <= i < ids.len() ==> (#[trigger] s.outcomes(buyer, amount, ids)[i]).0 == ids[i],
        s.outcomes(buyer, amount, ids.push(id)) == s.outcomes(buyer, amount, ids).push(
            (id, s.after_offers(buyer, amount, ids).sells(amount, id)),
        ),
{
    let more = ids.push(id);
    assert(more.drop_last() =~= ids);
    assert(more.take(ids.len() as int) =~= ids);
    assert forall|i: int| 0 <= i < ids.len() implies more.take(i) == ids.take(i) by {
        assert(more.take(i) =~= ids.take(i));
    }
    assert(s.outcomes(buyer, amount, more) =~= s.outcomes(buyer, amount, ids).push(
        (id, s.after_offers(buyer, amount, ids).sells(amount, id)),
    ));
}

/// A batch of offers keeps the ledger well formed, however long it is and
/// whatever it names.
pub proof fn law_batch_keeps_the_ledger_well_formed(
    s: StateView,
    buyer: Address,
    amount: Amount,
    ids: Seq<u64>,
)
    requires
        s.wf(),
    ensures
        s.after_offers(buyer, amount, ids).wf(),
    decreases ids.len(),
{
    if ids.len() > 0 {
        law_batch_keeps_the_ledger_well_formed(s, buyer, amount, ids.drop_last());
    }
}

/// A transfer by a caller who owns no unit of the item, or of an item that
/// does not exist, leaves the ledger as it was, owners included.
pub proof fn law_transfer_by_stranger_changes_nothing(
    s: StateView,
    caller: Address,
    id: u64,
    new_owner: Address,
)
    requires
        !s.owns(caller, id),
    ensures
        s.after_transfer(caller, id, new_owner) == s,
{
}

/// A transfer by an owner moves one unit: the item has as many owner
/// entries as before, the new owner is among them, and as a collection they
/// are the old ones with one entry of the caller taken out and one of the
/// new owner put in. Nothing else of the item changes.
pub proof fn law_transfer_moves_one_unit(item: ItemView, caller: Address, new_owner: Address)
    requires
        item.owners.contains(caller),
    ensures
        item.after_transfer(caller, new_owner).owners.len() == item.owners.len(),
        item.after_transfer(caller, new_owner).owners.contains(new_owner),
        item.after_transfer(caller, new_owner).owners.to_multiset()
            == item.owners.to_multiset().remove(caller).insert(new_owner),
        item.after_transfer(caller, new_owner) == (ItemView {
            owners: item.after_transfer(caller, new_owner).owners,
            ..item
        }),
{
    broadcast use vstd::seq_lib::group_to_multiset_ensures;
    broadcast use vstd::seq_lib::lemma_multiset_commutative;
    broadcast use vstd::multiset::group_multiset_axioms;

    let owners = item.owners;
    owners.index_of_first_ensures(caller);
    let i = owners.index_of_first(caller)->0;
    let after = owners.update(i, new_owner);
    assert(after[i] == new_owner);
    let front = owners.take(i);
    let back = owners.skip(i + 1);
    assert(owners =~= front.push(caller) + back);
    assert(after =~= front.push(new_owner) + back);
    assert(after.to_multiset() =~= owners.to_multiset().remove(caller).insert(new_owner));
}

/// Every call keeps the ledger well formed: the identifiers stay those
/// below the counter, and no item sells more units than its supply or has
/// another number of owner entries than units sold.
pub proof fn law_calls_keep_the_ledger_well_formed(
    s: StateView,
    who: Address,
    amount: Amount,
    id: u64,
    to: Address,
    input: ItemInputView,
)
    requires
        s.wf(),
    ensures
        StateView::empty().wf(),
        s.item_count < u64::MAX ==> s.after_listing(who, input).wf(),
        s.after_offer(who, amount, id).wf(),
        s.after_transfer(who, id, to).wf(),
{
    lemma_trimmed_empty_iff_blank(input.name);
    lemma_trimmed_empty_iff_blank(input.image_url);
    if s.owns(who, id) {
        s.items[id].owners.index_of_first_ensures(who);
    }
}

} // verus!
