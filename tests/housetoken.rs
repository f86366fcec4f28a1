use ballot_ledger::housetoken::{BoughtHouse, ChangedPrice, HouseError, Housetoken, Payment, Sale};

const ADMIN: u64 = 1;
const BUYER: u64 = 2;
const OTHER: u64 = 3;

fn one_house() -> Housetoken {
    let mut t = Housetoken::new(ADMIN);
    assert_eq!(t.create_house(ADMIN, "1 Main St".to_string(), 900, 2, 1, 12_345, 100), Ok((1, 1)));
    t
}

#[test]
fn create_house_numbers_from_one() {
    let mut t = one_house();
    assert_eq!(t.next_id(), 2);
    assert_eq!(t.create_house(ADMIN, "2 Main St".to_string(), 1200, 3, 2, 5000, 0), Ok((2, 2)));
    let h = t.get_house(1).unwrap();
    assert_eq!(h.id, 1);
    assert_eq!(h.owner, ADMIN);
    assert_eq!(h.royalty_collector, ADMIN);
    assert_eq!(h.home_address, "1 Main St");
    assert_eq!((h.sq_feet, h.bed_rooms, h.bath_rooms), (900, 2, 1));
    assert_eq!((h.price, h.royalty), (12_345, 100));
    assert!(t.get_house(0).is_none());
    assert!(t.get_house(3).is_none());
    assert!(t.get_house(-1).is_none());
}

#[test]
fn create_house_errors() {
    let mut t = Housetoken::new(ADMIN);
    assert_eq!(t.create_house(OTHER, "x".to_string(), 1, 1, 1, 1, 0), Err(HouseError::NotAdmin));
    assert_eq!(t.create_house(ADMIN, "x".to_string(), 1, 1, 1, 1, 1001), Err(HouseError::RoyaltyTooHigh));
    assert_eq!(t.next_id(), 1);
    assert_eq!(t.create_house(ADMIN, "x".to_string(), 1, 1, 1, 1, 1000), Ok((1, 1)));
}

#[test]
fn change_price_reports_old_and_new() {
    let mut t = one_house();
    assert_eq!(
        t.change_price(1, 20_000),
        Ok(ChangedPrice { house_id: 1, old_price: 12_345, new_price: 20_000 })
    );
    assert_eq!(t.get_house(1).unwrap().price, 20_000);
    assert_eq!(t.change_price(2, 1), Err(HouseError::HouseNotFound));
}

#[test]
fn buy_house_splits_price_and_moves_ownership() {
    let mut t = one_house();
    assert_eq!(t.buy_house(ADMIN, 1), Err(HouseError::CannotBuyOwnHouse));
    assert_eq!(t.buy_house(BUYER, 5), Err(HouseError::HouseNotFound));
    assert_eq!(
        t.buy_house(BUYER, 1),
        Ok(Sale {
            event: BoughtHouse { house_id: 1, seller: ADMIN, buyer: BUYER },
            to_seller: Payment { to: ADMIN, amount: 11_145 },
            to_royalty_collector: Payment { to: ADMIN, amount: 1_200 },
            token: 1,
        })
    );
    assert_eq!(t.get_house(1).unwrap().owner, BUYER);
    assert_eq!(t.buy_house(BUYER, 1), Err(HouseError::CannotBuyOwnHouse));
    let sale = t.buy_house(OTHER, 1).unwrap();
    assert_eq!(sale.to_seller, Payment { to: BUYER, amount: 11_145 });
    assert_eq!(sale.to_royalty_collector, Payment { to: ADMIN, amount: 1_200 });
}
