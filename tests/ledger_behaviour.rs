use std::collections::HashMap;

use kitties::{
    random_value, AccountId, Balance, Currency, CurrencyError, Error, Event, Gender, Kitty,
    Ledger,
};

/// Balances with a minimum of 1 that a payer must keep.
struct Wallets {
    free: HashMap<AccountId, Balance>,
}

impl Wallets {
    fn new() -> Wallets {
        let mut free = HashMap::new();
        free.insert(100, 100);
        free.insert(200, 200);
        free.insert(300, 300);
        Wallets { free }
    }

    fn balance(&self, who: AccountId) -> Balance {
        *self.free.get(&who).unwrap_or(&0)
    }
}

impl Currency for Wallets {
    fn transfer(
        &mut self,
        from: AccountId,
        to: AccountId,
        amount: Balance,
    ) -> Result<(), CurrencyError> {
        if amount == 0 || from == to {
            return Ok(());
        }
        let left = self
            .balance(from)
            .checked_sub(amount)
            .ok_or(CurrencyError::InsufficientBalance)?;
        if left < 1 {
            return Err(CurrencyError::WouldDropBelowMinimum);
        }
        self.free.insert(from, left);
        let to_balance = self.balance(to) + amount;
        self.free.insert(to, to_balance);
        Ok(())
    }
}

const SEED: [u8; 32] = [0u8; 32];

const FEMALE_DNA: [u8; 16] = [1, 2, 3, 4, 5, 6, 7, 8, 9, 10, 11, 12, 13, 14, 15, 16];
const MALE_DNA: [u8; 16] = [
    102, 102, 103, 104, 105, 106, 107, 108, 109, 110, 111, 112, 113, 114, 115, 116,
];

#[test]
fn random_value_hashes_seed_sender_and_position() {
    assert_eq!(
        random_value(&SEED, 100, Some(0)),
        [59, 250, 138, 82, 209, 39, 141, 109, 163, 238, 183, 145, 235, 168, 18, 122]
    );
    assert_eq!(
        random_value(&SEED, 100, Some(1)),
        [58, 36, 211, 58, 117, 234, 190, 85, 254, 225, 241, 247, 216, 199, 247, 142]
    );
    assert_eq!(
        random_value(&SEED, 100, None),
        [104, 30, 85, 116, 31, 172, 235, 26, 189, 155, 81, 233, 223, 202, 237, 121]
    );
}

#[test]
fn gender_follows_first_byte_parity() {
    let odd = Kitty([3, 0, 0, 0, 0, 0, 0, 0, 0, 0, 0, 0, 0, 0, 0, 0]);
    let even = Kitty([254, 1, 1, 1, 1, 1, 1, 1, 1, 1, 1, 1, 1, 1, 1, 1]);
    assert_eq!(odd.get_gender(), Gender::Female);
    assert_eq!(odd.get_gender(), odd.get_gender());
    assert_eq!(even.get_gender(), Gender::Male);
    assert_eq!(even.get_gender(), even.get_gender());
}

#[test]
fn create_with_dna_stores_under_next_id() {
    let mut ledger = Ledger::new();
    assert_eq!(ledger.create_with_dna(7, FEMALE_DNA), Ok(()));
    assert_eq!(ledger.create_with_dna(8, MALE_DNA), Ok(()));
    assert_eq!(ledger.kitties(7, 0), Some(Kitty(FEMALE_DNA)));
    assert_eq!(ledger.kitties(8, 1), Some(Kitty(MALE_DNA)));
    assert_eq!(ledger.kitties(7, 1), None);
    assert_eq!(ledger.parents(0), None);
    assert_eq!(ledger.next_kitty_id(), 2);
    assert_eq!(ledger.last_event(), Some(Event::KittyCreated(8, 1, Kitty(MALE_DNA))));
}

#[test]
fn breed_ignores_argument_order() {
    let mut a = Ledger::new();
    let mut b = Ledger::new();
    for ledger in [&mut a, &mut b] {
        assert_eq!(ledger.create_with_dna(5, MALE_DNA), Ok(()));
        assert_eq!(ledger.create_with_dna(5, FEMALE_DNA), Ok(()));
    }
    let mixer = [0b1010_1010u8; 16];
    assert_eq!(a.breed_with_mixer(5, 0, 1, mixer), Ok(()));
    assert_eq!(b.breed_with_mixer(5, 1, 0, mixer), Ok(()));
    assert_eq!(a.parents(2), Some((1, 0)));
    assert_eq!(b.parents(2), Some((1, 0)));
    assert_eq!(a.kitties(5, 2), b.kitties(5, 2));
    assert_eq!(a.last_event(), b.last_event());
    assert_eq!(a.next_kitty_id(), 3);
}

#[test]
fn breed_with_clear_mixer_copies_the_mother() {
    let mut ledger = Ledger::new();
    assert_eq!(ledger.create_with_dna(5, MALE_DNA), Ok(()));
    assert_eq!(ledger.create_with_dna(5, FEMALE_DNA), Ok(()));
    assert_eq!(ledger.breed_with_mixer(5, 0, 1, [0u8; 16]), Ok(()));
    assert_eq!(ledger.kitties(5, 2), Some(Kitty(FEMALE_DNA)));
    assert_eq!(ledger.breed_with_mixer(5, 0, 1, [0xffu8; 16]), Ok(()));
    assert_eq!(ledger.kitties(5, 3), Some(Kitty(MALE_DNA)));
    assert_eq!(
        ledger.last_event(),
        Some(Event::KittyBred(5, 3, Kitty(MALE_DNA), Kitty(FEMALE_DNA), Kitty(MALE_DNA)))
    );
}

#[test]
fn breed_same_gender_is_refused() {
    let mut ledger = Ledger::new();
    assert_eq!(ledger.create_with_dna(5, MALE_DNA), Ok(()));
    assert_eq!(ledger.create_with_dna(5, [4u8; 16]), Ok(()));
    assert_eq!(
        ledger.breed_with_mixer(5, 0, 1, [0u8; 16]),
        Err(Error::KittiesBredFromSameGenderCouple)
    );
    assert_eq!(ledger.next_kitty_id(), 2);
    assert_eq!(ledger.parents(2), None);
}

#[test]
fn id_overflow_is_refused() {
    let mut ledger = Ledger::with_next_kitty_id(u32::MAX - 1);
    assert_eq!(ledger.get_next_kitty_id(), Ok(u32::MAX - 1));
    assert_eq!(ledger.get_next_kitty_id(), Err(Error::KittiesIdOverflow));
    assert_eq!(ledger.next_kitty_id(), u32::MAX);
    assert_eq!(ledger.create(1, &SEED, Some(0)), Err(Error::KittiesIdOverflow));
    assert_eq!(ledger.last_event(), None);
}

#[test]
fn breed_overflow_is_refused() {
    let mut ledger = Ledger::with_next_kitty_id(u32::MAX - 2);
    assert_eq!(ledger.create_with_dna(5, MALE_DNA), Ok(()));
    assert_eq!(ledger.create_with_dna(5, FEMALE_DNA), Ok(()));
    assert_eq!(ledger.next_kitty_id(), u32::MAX);
    assert_eq!(
        ledger.breed_with_mixer(5, u32::MAX - 2, u32::MAX - 1, [0u8; 16]),
        Err(Error::KittiesIdOverflow)
    );
    assert_eq!(ledger.parents(u32::MAX), None);
}

#[test]
fn self_transfer_emits_nothing_and_cross_transfer_one() {
    let mut ledger = Ledger::new();
    assert_eq!(ledger.create_with_dna(5, MALE_DNA), Ok(()));
    assert_eq!(ledger.set_price(5, 0, Some(9)), Ok(()));
    let before = ledger.last_event();
    assert_eq!(ledger.transfer(5, 5, 0), Ok(()));
    assert_eq!(ledger.last_event(), before);
    assert_eq!(ledger.kitties(5, 0), Some(Kitty(MALE_DNA)));

    assert_eq!(ledger.transfer(5, 6, 0), Ok(()));
    assert_eq!(ledger.kitties(5, 0), None);
    assert_eq!(ledger.kitties(6, 0), Some(Kitty(MALE_DNA)));
    assert_eq!(ledger.last_event(), Some(Event::KittyTransfered(5, 6, 0, Kitty(MALE_DNA))));
    // a direct transfer keeps the listing
    assert_eq!(ledger.prices(0), Some(9));
    // the former owner can no longer move it
    assert_eq!(ledger.transfer(5, 6, 0), Err(Error::KittyNotOwned));
}

#[test]
fn buy_at_price_pays_the_price_not_the_bid() {
    let mut ledger = Ledger::new();
    let mut wallets = Wallets::new();
    assert_eq!(ledger.create_with_dna(100, FEMALE_DNA), Ok(()));
    assert_eq!(ledger.set_price(100, 0, Some(40)), Ok(()));
    assert_eq!(ledger.buy_quote(100, 0, 90), Ok(40));
    assert_eq!(ledger.buy(&mut wallets, 100, 300, 0, 90), Ok(()));
    assert_eq!(wallets.balance(100), 140);
    assert_eq!(wallets.balance(300), 260);
    assert_eq!(ledger.prices(0), None);
    assert_eq!(ledger.kitties(300, 0), Some(Kitty(FEMALE_DNA)));
    assert_eq!(ledger.kitties(100, 0), None);
    assert_eq!(ledger.last_event(), Some(Event::KittyBought(100, 300, 0, 40)));
    assert_eq!(ledger.buy_quote(300, 0, 90), Err(Error::KittyNotForSale));
}

#[test]
fn buy_below_price_changes_nothing() {
    let mut ledger = Ledger::new();
    let mut wallets = Wallets::new();
    assert_eq!(ledger.create_with_dna(100, FEMALE_DNA), Ok(()));
    assert_eq!(ledger.set_price(100, 0, Some(41)), Ok(()));
    assert_eq!(ledger.buy(&mut wallets, 100, 300, 0, 40), Err(Error::KittyPriceTooLow));
    assert_eq!(ledger.prices(0), Some(41));
    assert_eq!(ledger.kitties(100, 0), Some(Kitty(FEMALE_DNA)));
    assert_eq!(wallets.balance(300), 300);
    assert_eq!(ledger.last_event(), Some(Event::KittyPriceSet(100, 0, Some(41))));
}

#[test]
fn settle_purchase_follows_the_payment() {
    let mut ledger = Ledger::new();
    assert_eq!(ledger.create_with_dna(100, FEMALE_DNA), Ok(()));
    assert_eq!(ledger.set_price(100, 0, Some(10)), Ok(()));
    assert_eq!(
        ledger.settle_purchase(100, 200, 0, 10, Err(CurrencyError::InsufficientBalance)),
        Err(Error::Currency(CurrencyError::InsufficientBalance))
    );
    assert_eq!(ledger.kitties(100, 0), Some(Kitty(FEMALE_DNA)));
    assert_eq!(ledger.prices(0), Some(10));
    assert_eq!(ledger.settle_purchase(100, 200, 0, 9, Ok(())), Err(Error::KittyPriceTooLow));
    assert_eq!(ledger.settle_purchase(200, 100, 0, 10, Ok(())), Err(Error::KittyNotOwned));
    assert_eq!(ledger.settle_purchase(100, 200, 0, 10, Ok(())), Ok(()));
    assert_eq!(ledger.kitties(200, 0), Some(Kitty(FEMALE_DNA)));
    assert_eq!(ledger.prices(0), None);
}

#[test]
fn set_price_none_erases_listing() {
    let mut ledger = Ledger::new();
    assert_eq!(ledger.create_with_dna(100, FEMALE_DNA), Ok(()));
    assert_eq!(ledger.set_price(100, 0, Some(10)), Ok(()));
    assert_eq!(ledger.set_price(100, 0, Some(10)), Ok(()));
    assert_eq!(ledger.last_event(), Some(Event::KittyPriceSet(100, 0, Some(10))));
    assert_eq!(ledger.set_price(100, 0, None), Ok(()));
    assert_eq!(ledger.prices(0), None);
    assert_eq!(ledger.set_price(101, 0, Some(3)), Err(Error::KittyNotOwned));
    assert_eq!(ledger.prices(0), None);
}

#[test]
fn mint_breed_list_and_buy_scenario() {
    let mut ledger = Ledger::new();
    let mut wallets = Wallets::new();
    let owner = 100;
    let buyer = 300;

    assert_eq!(ledger.create(owner, &SEED, Some(0)), Ok(()));
    let a = ledger.kitties(owner, 0).unwrap();
    assert_eq!(a, Kitty(random_value(&SEED, owner, Some(0))));
    assert_eq!(ledger.next_kitty_id(), 1);

    assert_eq!(ledger.create(owner, &SEED, Some(1)), Ok(()));
    let b = ledger.kitties(owner, 1).unwrap();
    assert_ne!(a.get_gender(), b.get_gender());

    assert_eq!(ledger.breed(owner, 1, 0, &SEED, Some(1)), Ok(()));
    assert!(ledger.kitties(owner, 2).is_some());
    let (female, male) = if a.get_gender() == Gender::Female { (0, 1) } else { (1, 0) };
    assert_eq!(ledger.parents(2), Some((female, male)));
    assert_eq!(ledger.next_kitty_id(), 3);

    assert_eq!(ledger.set_price(owner, 0, Some(200)), Ok(()));
    assert_eq!(ledger.buy(&mut wallets, owner, buyer, 0, 10), Err(Error::KittyPriceTooLow));
    assert_eq!(ledger.prices(0), Some(200));

    assert_eq!(ledger.buy(&mut wallets, owner, buyer, 0, 1000), Ok(()));
    assert_eq!(ledger.kitties(buyer, 0), Some(a));
    assert_eq!(ledger.kitties(owner, 0), None);
    assert_eq!(ledger.prices(0), None);
    assert_eq!(wallets.balance(buyer), 100);
    assert_eq!(wallets.balance(owner), 300);
}
