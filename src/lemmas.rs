//! Laws of the ledger's operations, stated over its abstract state.
use vstd::prelude::*;

use crate::genetics::Gender;
use crate::ledger::{AccountId, Balance, CurrencyError, Error, Event, KittyIndex, LedgerView};

verus! {

/// Minting keeps every id below the counter and every price and lineage on a creature.
pub proof fn lemma_create_keeps_wf(v: LedgerView, sender: AccountId, dna: [u8; 16])
    requires
        v.wf(),
    ensures
        v.create(sender, dna).1.wf(),
{
}

/// Breeding keeps every id below the counter and every price and lineage on a creature.
pub proof fn lemma_breed_keeps_wf(
    v: LedgerView,
    sender: AccountId,
    parent1_id: KittyIndex,
    parent2_id: KittyIndex,
    mixer: [u8; 16],
)
    requires
        v.wf(),
    ensures
        v.breed(sender, parent1_id, parent2_id, mixer).1.wf(),
{
}

/// A transfer keeps every id below the counter and every price and lineage on a creature.
pub proof fn lemma_transfer_keeps_wf(
    v: LedgerView,
    sender: AccountId,
    new_owner: AccountId,
    id: KittyIndex,
)
    requires
        v.wf(),
    ensures
        v.transfer(sender, new_owner, id).1.wf(),
{
}

/// Listing keeps every id below the counter and every price on a creature.
pub proof fn lemma_set_price_keeps_wf(
    v: LedgerView,
    sender: AccountId,
    id: KittyIndex,
    new_price: Option<Balance>,
)
    requires
        v.wf(),
    ensures
        v.set_price(sender, id, new_price).1.wf(),
{
}

/// A purchase keeps every id below the counter and every price and lineage on a creature.
pub proof fn lemma_settle_purchase_keeps_wf(
    v: LedgerView,
    seller: AccountId,
    buyer: AccountId,
    id: KittyIndex,
    max_bid: Balance,
    paid: Result<(), CurrencyError>,
)
    requires
        v.wf(),
    ensures
        v.settle_purchase(seller, buyer, id, max_bid, paid).1.wf(),
{
}

/// Breeding two creatures of opposite genders that `sender` owns succeeds while ids remain,
/// gives the child an id above every id in use, records the mother first and the father
/// second, and does the same whichever parent comes first.
pub proof fn lemma_breed_fresh_id_and_lineage(
    v: LedgerView,
    sender: AccountId,
    parent1_id: KittyIndex,
    parent2_id: KittyIndex,
    mixer: [u8; 16],
)
    requires
        v.wf(),
        v.owns(sender, parent1_id),
        v.owns(sender, parent2_id),
        v.kitty(parent1_id).gender() != v.kitty(parent2_id).gender(),
        v.next_kitty_id < u32::MAX,
    ensures
        ({
            let (r, w) = v.breed(sender, parent1_id, parent2_id, mixer);
            let child_id = v.next_kitty_id;
            &&& r is Ok
            &&& forall|id: KittyIndex| #[trigger] v.kitties.contains_key(id) ==> id < child_id
            &&& forall|id: KittyIndex| #[trigger] v.parents.contains_key(id) ==> id < child_id
            &&& w.owns(sender, child_id)
            &&& w.next_kitty_id == child_id + 1
            &&& w.parents.contains_key(child_id)
            &&& w.kitty(w.parents[child_id].0).gender() == Gender::Female
            &&& w.kitty(w.parents[child_id].1).gender() == Gender::Male
            &&& (w.parents[child_id] == (parent1_id, parent2_id) || w.parents[child_id] == (
                parent2_id,
                parent1_id,
            ))
        }),
        v.breed(sender, parent2_id, parent1_id, mixer) == v.breed(
            sender,
            parent1_id,
            parent2_id,
            mixer,
        ),
{
}

/// A transfer to oneself changes nothing and emits nothing.
pub proof fn lemma_self_transfer_changes_nothing(v: LedgerView, owner: AccountId, id: KittyIndex)
    ensures
        v.transfer(owner, owner, id).1 == v,
        v.owns(owner, id) ==> v.transfer(owner, owner, id).0 is Ok,
{
}

/// A transfer to another account moves exactly the one record and emits exactly one
/// notification.
pub proof fn lemma_cross_transfer_moves_one_record(
    v: LedgerView,
    sender: AccountId,
    new_owner: AccountId,
    id: KittyIndex,
)
    requires
        v.owns(sender, id),
        new_owner != sender,
    ensures
        ({
            let (r, w) = v.transfer(sender, new_owner, id);
            &&& r is Ok
            &&& w.owns(new_owner, id)
            &&& !w.owns(sender, id)
            &&& w.kitty(id) == v.kitty(id)
            &&& w.kitties.remove(id) == v.kitties.remove(id)
            &&& w.events == v.events.push(
                Event::KittyTransfered(sender, new_owner, id, v.kitty(id)),
            )
            &&& w.prices == v.prices
            &&& w.parents == v.parents
        }),
{
    let w = v.transfer(sender, new_owner, id).1;
    assert(w.kitties.remove(id) =~= v.kitties.remove(id));
}

/// Listing a creature and then buying it with a bid at or above the price succeeds: the
/// quote, which is what the buyer pays, is the price and not the bid, the creature goes to
/// the buyer, and its listing is gone.
pub proof fn lemma_list_then_buy(
    v: LedgerView,
    seller: AccountId,
    buyer: AccountId,
    id: KittyIndex,
    price: Balance,
    max_bid: Balance,
)
    requires
        v.owns(seller, id),
        price <= max_bid,
    ensures
        ({
            let (r1, w1) = v.set_price(seller, id, Some(price));
            let (r2, w2) = w1.settle_purchase(seller, buyer, id, max_bid, Ok(()));
            &&& r1 is Ok
            &&& w1.buy_quote(seller, id, max_bid) == Ok::<Balance, Error>(price)
            &&& r2 is Ok
            &&& w2.owns(buyer, id)
            &&& w2.kitty(id) == v.kitty(id)
            &&& !w2.prices.contains_key(id)
            &&& w2.events.last() == Event::KittyBought(seller, buyer, id, price)
        }),
{
}

/// A bid below the asking price is refused with `KittyPriceTooLow` and changes nothing,
/// whatever the payment would have done.
pub proof fn lemma_low_bid_changes_nothing(
    v: LedgerView,
    seller: AccountId,
    buyer: AccountId,
    id: KittyIndex,
    max_bid: Balance,
    paid: Result<(), CurrencyError>,
)
    requires
        v.owns(seller, id),
        v.prices.contains_key(id),
        max_bid < v.prices[id],
    ensures
        v.buy_quote(seller, id, max_bid) == Err::<Balance, Error>(Error::KittyPriceTooLow),
        v.settle_purchase(seller, buyer, id, max_bid, paid) == (
            Err::<(), Error>(Error::KittyPriceTooLow),
            v,
        ),
{
}

} // verus!
