//! The ledger: ownership, lineage and price records, the identifier allocator and the
//! notifications of successful operations.
use std::collections::HashMap;
use vstd::prelude::*;

use crate::entropy::{random_payload, random_value};
use crate::genetics::{get_female_male, mix_dna, mix_payload, Gender, Kitty};

verus! {

broadcast use vstd::std_specs::hash::group_hash_axioms;

/// An account that owns creatures and pays for them.
pub type AccountId = u64;

/// A creature's identifier.
pub type KittyIndex = u32;

/// An amount of the host's currency.
pub type Balance = u64;

/// Why the currency refused to move an amount.
#[derive(Clone, Copy, Debug, PartialEq, Eq, Structural)]
pub enum CurrencyError {
    InsufficientBalance,
    WouldDropBelowMinimum,
}

/// Why an operation was rejected; a rejected operation changes nothing.
#[derive(Clone, Copy, Debug, PartialEq, Eq, Structural)]
pub enum Error {
    KittiesIdOverflow,
    KittyNotOwned,
    KittiesBredFromSameGenderCouple,
    KittyNotForSale,
    KittyPriceTooLow,
    Currency(CurrencyError),
}

/// The notification that a successful operation emits.
#[derive(Clone, Copy, Debug, PartialEq, Eq)]
pub enum Event {
    /// owner, id, creature
    KittyCreated(AccountId, KittyIndex, Kitty),
    /// owner, id, child, mother, father
    KittyBred(AccountId, KittyIndex, Kitty, Kitty, Kitty),
    /// owner, new owner, id, creature
    KittyTransfered(AccountId, AccountId, KittyIndex, Kitty),
    /// owner, id, price
    KittyPriceSet(AccountId, KittyIndex, Option<Balance>),
    /// seller, buyer, id, price
    KittyBought(AccountId, AccountId, KittyIndex, Balance),
}

/// The host's currency, which a purchase pays through.
pub trait Currency {
    /// Moves `amount` from `from` to `to`, keeping the payer's balance above its minimum.
    fn transfer(&mut self, from: AccountId, to: AccountId, amount: Balance) -> Result<
        (),
        CurrencyError,
    >;
}

/// The abstract state of a ledger.
pub struct LedgerView {
    /// Each creature's owner and payload, by id.
    pub kitties: Map<KittyIndex, (AccountId, Kitty)>,
    /// The mother's and the father's id of each bred creature.
    pub parents: Map<KittyIndex, (KittyIndex, KittyIndex)>,
    /// The asking price of each creature for sale.
    pub prices: Map<KittyIndex, Balance>,
    /// The id that the next creature gets.
    pub next_kitty_id: KittyIndex,
    /// The notifications emitted so far, oldest first.
    pub events: Seq<Event>,
}

impl LedgerView {
    /// The ledger that holds nothing.
    pub open spec fn empty() -> LedgerView {
        LedgerView {
            kitties: Map::empty(),
            parents: Map::empty(),
            prices: Map::empty(),
            next_kitty_id: 0,
            events: Seq::empty(),
        }
    }

    /// Whether `owner` holds the creature `id`.
    pub open spec fn owns(self, owner: AccountId, id: KittyIndex) -> bool {
        self.kitties.contains_key(id) && self.kitties[id].0 == owner
    }

    /// The creature `id`.
    pub open spec fn kitty(self, id: KittyIndex) -> Kitty {
        self.kitties[id].1
    }

    /// Every id in use lies below the next one; prices and lineage name existing creatures.
    pub open spec fn wf(self) -> bool {
        &&& forall|id: KittyIndex| #[trigger]
            self.kitties.contains_key(id) ==> id < self.next_kitty_id
        &&& forall|id: KittyIndex| #[trigger]
            self.prices.contains_key(id) ==> self.kitties.contains_key(id)
        &&& forall|id: KittyIndex| #[trigger]
            self.parents.contains_key(id) ==> {
                &&& self.kitties.contains_key(id)
                &&& self.parents[id].0 < self.next_kitty_id
                &&& self.parents[id].1 < self.next_kitty_id
            }
    }

    /// Hands out the next id and advances the counter, unless the counter is exhausted.
    pub open spec fn allocate_id(self) -> (Result<KittyIndex, Error>, LedgerView) {
        if self.next_kitty_id < u32::MAX {
            (
                Ok(self.next_kitty_id),
                LedgerView { next_kitty_id: (self.next_kitty_id + 1) as u32, ..self },
            )
        } else {
            (Err(Error::KittiesIdOverflow), self)
        }
    }

    /// Stores a new creature with payload `dna` for `sender` under the next id.
    pub open spec fn create(self, sender: AccountId, dna: [u8; 16]) -> (
        Result<(), Error>,
        LedgerView,
    ) {
        if self.next_kitty_id == u32::MAX {
            (Err(Error::KittiesIdOverflow), self)
        } else {
            let id = self.next_kitty_id;
            let kitty = Kitty(dna);
            (
                Ok(()),
                LedgerView {
                    kitties: self.kitties.insert(id, (sender, kitty)),
                    next_kitty_id: (id + 1) as u32,
                    events: self.events.push(Event::KittyCreated(sender, id, kitty)),
                    ..self
                },
            )
        }
    }

    /// Breeds the creatures `parent1_id` and `parent2_id` of `sender`: the child's payload
    /// mixes the mother's and the father's under `mixer`, and its lineage names the mother
    /// first.
    pub open spec fn breed(
        self,
        sender: AccountId,
        parent1_id: KittyIndex,
        parent2_id: KittyIndex,
        mixer: [u8; 16],
    ) -> (Result<(), Error>, LedgerView) {
        let kitty1 = self.kitty(parent1_id);
        let kitty2 = self.kitty(parent2_id);
        if !self.owns(sender, parent1_id) || !self.owns(sender, parent2_id) {
            (Err(Error::KittyNotOwned), self)
        } else if kitty1.gender() == kitty2.gender() {
            (Err(Error::KittiesBredFromSameGenderCouple), self)
        } else if self.next_kitty_id == u32::MAX {
            (Err(Error::KittiesIdOverflow), self)
        } else {
            let (mother_id, father_id) = if kitty1.gender() == Gender::Female {
                (parent1_id, parent2_id)
            } else {
                (parent2_id, parent1_id)
            };
            let mother = self.kitty(mother_id);
            let father = self.kitty(father_id);
            let child = Kitty(mix_payload(mixer, mother.0, father.0));
            let id = self.next_kitty_id;
            (
                Ok(()),
                LedgerView {
                    kitties: self.kitties.insert(id, (sender, child)),
                    parents: self.parents.insert(id, (mother_id, father_id)),
                    next_kitty_id: (id + 1) as u32,
                    events: self.events.push(Event::KittyBred(sender, id, child, mother, father)),
                    ..self
                },
            )
        }
    }

    /// Hands the creature `id` of `sender` to `new_owner`; a transfer to oneself changes
    /// nothing.
    pub open spec fn transfer(self, sender: AccountId, new_owner: AccountId, id: KittyIndex) -> (
        Result<(), Error>,
        LedgerView,
    ) {
        if !self.owns(sender, id) {
            (Err(Error::KittyNotOwned), self)
        } else if new_owner == sender {
            (Ok(()), self)
        } else {
            let kitty = self.kitty(id);
            (
                Ok(()),
                LedgerView {
                    kitties: self.kitties.insert(id, (new_owner, kitty)),
                    events: self.events.push(Event::KittyTransfered(sender, new_owner, id, kitty)),
                    ..self
                },
            )
        }
    }

    /// Lists the creature `id` of `sender` at `new_price`, or takes it off sale for `None`.
    pub open spec fn set_price(self, sender: AccountId, id: KittyIndex, new_price: Option<Balance>) -> (
        Result<(), Error>,
        LedgerView,
    ) {
        if !self.owns(sender, id) {
            (Err(Error::KittyNotOwned), self)
        } else {
            (
                Ok(()),
                LedgerView {
                    prices: match new_price {
                        Some(p) => self.prices.insert(id, p),
                        None => self.prices.remove(id),
                    },
                    events: self.events.push(Event::KittyPriceSet(sender, id, new_price)),
                    ..self
                },
            )
        }
    }

    /// What a buyer bidding at most `max_bid` pays `seller` for the creature `id`: its price.
    pub open spec fn buy_quote(self, seller: AccountId, id: KittyIndex, max_bid: Balance) -> Result<
        Balance,
        Error,
    > {
        if !self.owns(seller, id) {
            Err(Error::KittyNotOwned)
        } else if !self.prices.contains_key(id) {
            Err(Error::KittyNotForSale)
        } else if self.prices[id] > max_bid {
            Err(Error::KittyPriceTooLow)
        } else {
            Ok(self.prices[id])
        }
    }

    /// Completes a purchase whose payment came back as `paid`: the creature goes to `buyer`
    /// and leaves sale, or nothing changes.
    pub open spec fn settle_purchase(
        self,
        seller: AccountId,
        buyer: AccountId,
        id: KittyIndex,
        max_bid: Balance,
        paid: Result<(), CurrencyError>,
    ) -> (Result<(), Error>, LedgerView) {
        match self.buy_quote(seller, id, max_bid) {
            Err(e) => (Err(e), self),
            Ok(price) => match paid {
                Err(e) => (Err(Error::Currency(e)), self),
                Ok(()) => (
                    Ok(()),
                    LedgerView {
                        kitties: self.kitties.insert(id, (buyer, self.kitty(id))),
                        prices: self.prices.remove(id),
                        events: self.events.push(Event::KittyBought(seller, buyer, id, price)),
                        ..self
                    },
                ),
            },
        }
    }
}

/// A ledger of creatures, their owners, lineage and prices.
pub struct Ledger {
    kitties: HashMap<KittyIndex, (AccountId, Kitty)>,
    parents: HashMap<KittyIndex, (KittyIndex, KittyIndex)>,
    prices: HashMap<KittyIndex, Balance>,
    next_kitty_id: KittyIndex,
    events: Vec<Event>,
}

impl View for Ledger {
    type V = LedgerView;

    closed spec fn view(&self) -> LedgerView {
        LedgerView {
            kitties: self.kitties@,
            parents: self.parents@,
            prices: self.prices@,
            next_kitty_id: self.next_kitty_id,
            events: self.events@,
        }
    }
}

impl Ledger {
    /// An empty ledger whose first creature gets id 0.
    pub fn new() -> (r: Ledger)
        ensures
            r@ == LedgerView::empty(),
            r@.wf(),
    {
        let r = Ledger {
            kitties: HashMap::new(),
            parents: HashMap::new(),
            prices: HashMap::new(),
            next_kitty_id: 0,
            events: Vec::new(),
        };
        assert(r@.events =~= Seq::empty());
        r
    }

    /// An empty ledger whose first creature gets id `next_kitty_id`.
    pub fn with_next_kitty_id(next_kitty_id: KittyIndex) -> (r: Ledger)
        ensures
            r@ == (LedgerView { next_kitty_id, ..LedgerView::empty() }),
            r@.wf(),
    {
        let mut r = Ledger::new();
        r.next_kitty_id = next_kitty_id;
        r
    }

    /// The id that the next creature gets.
    pub fn next_kitty_id(&self) -> (r: KittyIndex)
        ensures
            r == self@.next_kitty_id,
    {
        self.next_kitty_id
    }

    /// The creature `kitty_id`, where `owner` holds it.
    pub fn kitties(&self, owner: AccountId, kitty_id: KittyIndex) -> (r: Option<Kitty>)
        ensures
            r == (if self@.owns(owner, kitty_id) {
                Some(self@.kitty(kitty_id))
            } else {
                None
            }),
    {
        match self.kitties.get(&kitty_id) {
            Some(entry) => {
                let (o, k) = *entry;
                if o == owner {
                    Some(k)
                } else {
                    None
                }
            },
            None => None,
        }
    }

    /// The mother's and the father's id of the bred creature `kitty_id`.
    pub fn parents(&self, kitty_id: KittyIndex) -> (r: Option<(KittyIndex, KittyIndex)>)
        ensures
            r == (if self@.parents.contains_key(kitty_id) {
                Some(self@.parents[kitty_id])
            } else {
                None
            }),
    {
        match self.parents.get(&kitty_id) {
            Some(p) => Some(*p),
            None => None,
        }
    }

    /// The asking price of `kitty_id`, where it is for sale.
    pub fn prices(&self, kitty_id: KittyIndex) -> (r: Option<Balance>)
        ensures
            r == (if self@.prices.contains_key(kitty_id) {
                Some(self@.prices[kitty_id])
            } else {
                None
            }),
    {
        match self.prices.get(&kitty_id) {
            Some(p) => Some(*p),
            None => None,
        }
    }

    /// The latest notification, if any was emitted.
    pub fn last_event(&self) -> (r: Option<Event>)
        ensures
            r == (if self@.events.len() == 0 {
                None
            } else {
                Some(self@.events.last())
            }),
    {
        let n = self.events.len();
        if n == 0 {
            None
        } else {
            Some(self.events[n - 1])
        }
    }

    /// Allocates an id: the counter's value, which then advances by one.
    pub fn get_next_kitty_id(&mut self) -> (r: Result<KittyIndex, Error>)
        ensures
            (r, final(self)@) == old(self)@.allocate_id(),
    {
        let current = self.next_kitty_id;
        match current.checked_add(1) {
            Some(next) => {
                self.next_kitty_id = next;
                Ok(current)
            },
            None => Err(Error::KittiesIdOverflow),
        }
    }

    /// Stores a new creature with payload `dna` for `sender` under a fresh id.
    pub fn create_with_dna(&mut self, sender: AccountId, dna: [u8; 16]) -> (r: Result<(), Error>)
        ensures
            (r, final(self)@) == old(self)@.create(sender, dna),
    {
        let kitty_id = match self.get_next_kitty_id() {
            Ok(id) => id,
            Err(e) => return Err(e),
        };
        let kitty = Kitty(dna);
        self.kitties.insert(kitty_id, (sender, kitty));
        self.events.push(Event::KittyCreated(sender, kitty_id, kitty));
        Ok(())
    }

    /// Mints a creature for `sender`, its payload drawn from the outside `seed` and the
    /// position of the call within its batch.
    pub fn create(&mut self, sender: AccountId, seed: &[u8; 32], extrinsic_index: Option<u32>) -> (r:
        Result<(), Error>)
        ensures
            (r, final(self)@) == old(self)@.create(
                sender,
                random_payload(*seed, sender, extrinsic_index),
            ),
    {
        let dna = random_value(seed, sender, extrinsic_index);
        self.create_with_dna(sender, dna)
    }

    /// Breeds two creatures of `sender` of opposite genders into a new one whose payload
    /// mixes the parents' under `mixer`.
    pub fn breed_with_mixer(
        &mut self,
        sender: AccountId,
        parent1_id: KittyIndex,
        parent2_id: KittyIndex,
        mixer: [u8; 16],
    ) -> (r: Result<(), Error>)
        ensures
            (r, final(self)@) == old(self)@.breed(sender, parent1_id, parent2_id, mixer),
    {
        let parent1 = match self.kitties(sender, parent1_id) {
            Some(k) => k,
            None => return Err(Error::KittyNotOwned),
        };
        let parent2 = match self.kitties(sender, parent2_id) {
            Some(k) => k,
            None => return Err(Error::KittyNotOwned),
        };
        let (momma, pappa) = match get_female_male(&parent1, &parent2) {
            Some((m, p)) => (*m, *p),
            None => return Err(Error::KittiesBredFromSameGenderCouple),
        };
        let child_id = match self.get_next_kitty_id() {
            Ok(id) => id,
            Err(e) => return Err(e),
        };
        let child = Kitty(mix_dna(mixer, momma.0, pappa.0));
        let (momma_id, poppa_id) = if parent1.get_gender() == Gender::Female {
            (parent1_id, parent2_id)
        } else {
            (parent2_id, parent1_id)
        };
        self.kitties.insert(child_id, (sender, child));
        self.parents.insert(child_id, (momma_id, poppa_id));
        self.events.push(Event::KittyBred(sender, child_id, child, momma, pappa));
        Ok(())
    }

    /// Breeds two creatures of `sender`, the mixer drawn from the outside `seed` and the
    /// position of the call within its batch.
    pub fn breed(
        &mut self,
        sender: AccountId,
        parent1_id: KittyIndex,
        parent2_id: KittyIndex,
        seed: &[u8; 32],
        extrinsic_index: Option<u32>,
    ) -> (r: Result<(), Error>)
        ensures
            (r, final(self)@) == old(self)@.breed(
                sender,
                parent1_id,
                parent2_id,
                random_payload(*seed, sender, extrinsic_index),
            ),
    {
        let mixer = random_value(seed, sender, extrinsic_index);
        self.breed_with_mixer(sender, parent1_id, parent2_id, mixer)
    }

    /// Hands the creature `kitty_id` of `sender` to `new_owner`.
    pub fn transfer(&mut self, sender: AccountId, new_owner: AccountId, kitty_id: KittyIndex) -> (r:
        Result<(), Error>)
        ensures
            (r, final(self)@) == old(self)@.transfer(sender, new_owner, kitty_id),
    {
        let kitty = match self.kitties(sender, kitty_id) {
            Some(k) => k,
            None => return Err(Error::KittyNotOwned),
        };
        if new_owner == sender {
            return Ok(());
        }
        self.kitties.insert(kitty_id, (new_owner, kitty));
        self.events.push(Event::KittyTransfered(sender, new_owner, kitty_id, kitty));
        Ok(())
    }

    /// Lists the creature `kitty_id` of `sender` at `new_price`, or takes it off sale.
    pub fn set_price(&mut self, sender: AccountId, kitty_id: KittyIndex, new_price: Option<Balance>) -> (r:
        Result<(), Error>)
        ensures
            (r, final(self)@) == old(self)@.set_price(sender, kitty_id, new_price),
    {
        match self.kitties(sender, kitty_id) {
            Some(_) => {},
            None => return Err(Error::KittyNotOwned),
        }
        match new_price {
            Some(p) => {
                self.prices.insert(kitty_id, p);
            },
            None => {
                self.prices.remove(&kitty_id);
            },
        }
        self.events.push(Event::KittyPriceSet(sender, kitty_id, new_price));
        Ok(())
    }

    /// The price that a purchase of `kitty_id` from `seller` with a bid of at most `max_bid`
    /// pays, or why it cannot happen.
    pub fn buy_quote(&self, seller: AccountId, kitty_id: KittyIndex, max_bid: Balance) -> (r: Result<
        Balance,
        Error,
    >)
        ensures
            r == self@.buy_quote(seller, kitty_id, max_bid),
    {
        if self.kitties(seller, kitty_id).is_none() {
            return Err(Error::KittyNotOwned);
        }
        let price = match self.prices(kitty_id) {
            Some(p) => p,
            None => return Err(Error::KittyNotForSale),
        };
        if price > max_bid {
            return Err(Error::KittyPriceTooLow);
        }
        Ok(price)
    }

    /// Completes a purchase once the payment's outcome `paid` is known: on success the
    /// creature goes to `buyer` and leaves sale; otherwise nothing changes.
    pub fn settle_purchase(
        &mut self,
        seller: AccountId,
        buyer: AccountId,
        kitty_id: KittyIndex,
        max_bid: Balance,
        paid: Result<(), CurrencyError>,
    ) -> (r: Result<(), Error>)
        ensures
            (r, final(self)@) == old(self)@.settle_purchase(seller, buyer, kitty_id, max_bid, paid),
    {
        let price = match self.buy_quote(seller, kitty_id, max_bid) {
            Ok(p) => p,
            Err(e) => return Err(e),
        };
        if let Err(e) = paid {
            return Err(Error::Currency(e));
        }
        let kitty = match self.kitties(seller, kitty_id) {
            Some(k) => k,
            None => return Err(Error::KittyNotOwned),
        };
        self.prices.remove(&kitty_id);
        self.kitties.insert(kitty_id, (buyer, kitty));
        self.events.push(Event::KittyBought(seller, buyer, kitty_id, price));
        Ok(())
    }

    /// Buys the creature `kitty_id` of `seller` for `buyer`, who bids at most `max_bid` and
    /// pays exactly the asking price through `currency`. Either the creature changes hands
    /// and leaves sale, or nothing changes.
    pub fn buy<C: Currency>(
        &mut self,
        currency: &mut C,
        seller: AccountId,
        buyer: AccountId,
        kitty_id: KittyIndex,
        max_bid: Balance,
    ) -> (r: Result<(), Error>)
        ensures
            match old(self)@.buy_quote(seller, kitty_id, max_bid) {
                Err(e) => r == Err::<(), Error>(e) && final(self)@ == old(self)@,
                Ok(_) => {
                    ||| (r, final(self)@) == old(self)@.settle_purchase(
                        seller,
                        buyer,
                        kitty_id,
                        max_bid,
                        Ok(()),
                    )
                    ||| r matches Err(Error::Currency(_)) && final(self)@ == old(self)@
                },
            },
    {
        let price = match self.buy_quote(seller, kitty_id, max_bid) {
            Ok(p) => p,
            Err(e) => return Err(e),
        };
        let paid = currency.transfer(buyer, seller, price);
        self.settle_purchase(seller, buyer, kitty_id, max_bid, paid)
    }
}

} // verus!
