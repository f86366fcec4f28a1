use ballot_ledger::purchase::{
    Aborted, ItemReceived, Purchase, PurchaseConfirmed, PurchaseError, State, Transfer,
};

const SELLER: u64 = 10;
const BUYER: u64 = 20;

#[test]
fn odd_deposit_is_rejected() {
    assert!(matches!(Purchase::new(SELLER, 7), Err(PurchaseError::ValueNotEven)));
}

#[test]
fn full_purchase_releases_both_deposits() {
    let mut p = Purchase::new(SELLER, 100).unwrap();
    assert_eq!(p.value(), 50);
    assert_eq!(p.seller(), SELLER);
    assert_eq!(p.buyer(), None);
    assert_eq!(p.state(), State::Created);
    assert_eq!(p.confirm_purchase(BUYER, 99), Err(PurchaseError::WrongValue));
    assert_eq!(p.confirm_purchase(BUYER, 100), Ok(PurchaseConfirmed {}));
    assert_eq!(p.state(), State::Locked);
    assert_eq!(p.buyer(), Some(BUYER));
    assert_eq!(p.confirm_purchase(BUYER, 100), Err(PurchaseError::InvalidState));
    assert_eq!(p.abort(SELLER, 0), Err(PurchaseError::InvalidState));
    assert_eq!(p.confirm_received(SELLER, 150), Err(PurchaseError::OnlyBuyer));
    assert_eq!(
        p.confirm_received(BUYER, 150),
        Ok((
            ItemReceived {},
            Transfer { to: BUYER, amount: 50 },
            Transfer { to: SELLER, amount: 150 }
        ))
    );
    assert_eq!(p.state(), State::Inactive);
    assert_eq!(p.confirm_received(BUYER, 150), Err(PurchaseError::InvalidState));
}

#[test]
fn seller_can_abort_before_lock() {
    let mut p = Purchase::new(SELLER, 10).unwrap();
    assert_eq!(p.abort(BUYER, 10), Err(PurchaseError::OnlySeller));
    assert_eq!(p.abort(SELLER, 10), Ok((Aborted {}, Transfer { to: SELLER, amount: 10 })));
    assert_eq!(p.state(), State::Inactive);
    assert_eq!(p.confirm_purchase(BUYER, 10), Err(PurchaseError::InvalidState));
}
