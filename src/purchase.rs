//! A two-party escrow: the seller deposits twice the price, the buyer pays twice the price,
//! and both deposits are released once the buyer confirms receipt.
use crate::AccountId;
use vstd::prelude::*;

verus! {

/// The stage an escrow is in.
#[derive(Clone, Copy, Debug, PartialEq, Eq, Structural)]
pub enum State {
    Created,
    Locked,
    Inactive,
}

/// Why an escrow call was rejected.
#[derive(Clone, Copy, Debug, PartialEq, Eq, Structural)]
pub enum PurchaseError {
    ValueNotEven,
    OnlySeller,
    OnlyBuyer,
    InvalidState,
    WrongValue,
}

/// Emitted when the seller aborts.
#[derive(Clone, Copy, Debug, PartialEq, Eq, Structural)]
pub struct Aborted {}

/// Emitted when the buyer pays and the escrow locks.
#[derive(Clone, Copy, Debug, PartialEq, Eq, Structural)]
pub struct PurchaseConfirmed {}

/// Emitted when the buyer confirms receipt.
#[derive(Clone, Copy, Debug, PartialEq, Eq, Structural)]
pub struct ItemReceived {}

/// A payment that the environment must carry out.
#[derive(Clone, Copy, Debug, PartialEq, Eq, Structural)]
pub struct Transfer {
    pub to: AccountId,
    pub amount: u128,
}

/// The escrow's state.
pub struct Purchase {
    value: u128,
    seller: AccountId,
    buyer: Option<AccountId>,
    state: State,
}

/// The mathematical model of an escrow.
pub ghost struct PurchaseView {
    pub value: u128,
    pub seller: AccountId,
    pub buyer: Option<AccountId>,
    pub state: State,
}

impl View for Purchase {
    type V = PurchaseView;

    closed spec fn view(&self) -> PurchaseView {
        PurchaseView { value: self.value, seller: self.seller, buyer: self.buyer, state: self.state }
    }
}

impl Purchase {
    /// A locked escrow has a buyer; price and deposits fit in `u128`.
    pub open spec fn wf(&self) -> bool {
        &&& self@.state == State::Locked ==> self@.buyer is Some
        &&& 2 * self@.value <= u128::MAX
    }

    /// `caller` opens an escrow as seller with a deposit of `deposit`, twice the price.
    pub fn new(caller: AccountId, deposit: u128) -> (r: Result<Purchase, PurchaseError>)
        ensures
            deposit % 2 != 0 <==> r is Err,
            r matches Err(e) ==> e == PurchaseError::ValueNotEven,
            r matches Ok(p) ==> p.wf() && p@ == (PurchaseView {
                value: deposit / 2,
                seller: caller,
                buyer: None,
                state: State::Created,
            }),
    {
        if deposit % 2 != 0 {
            return Err(PurchaseError::ValueNotEven);
        }
        Ok(Purchase { value: deposit / 2, seller: caller, buyer: None, state: State::Created })
    }

    /// The seller aborts before the escrow locks; `balance` goes back to the seller.
    pub fn abort(&mut self, caller: AccountId, balance: u128) -> (r: Result<(Aborted, Transfer), PurchaseError>)
        requires
            old(self).wf(),
        ensures
            final(self).wf(),
            r is Err ==> final(self)@ == old(self)@,
            caller != old(self)@.seller ==> r == Err::<(Aborted, Transfer), PurchaseError>(PurchaseError::OnlySeller),
            caller == old(self)@.seller && old(self)@.state != State::Created ==> r == Err::<
                (Aborted, Transfer),
                PurchaseError,
            >(PurchaseError::InvalidState),
            caller == old(self)@.seller && old(self)@.state == State::Created ==> {
                &&& r == Ok::<(Aborted, Transfer), PurchaseError>(
                    (Aborted {}, Transfer { to: old(self)@.seller, amount: balance }),
                )
                &&& final(self)@ == (PurchaseView { state: State::Inactive, ..old(self)@ })
            },
    {
        if caller != self.seller {
            return Err(PurchaseError::OnlySeller);
        }
        if self.state != State::Created {
            return Err(PurchaseError::InvalidState);
        }
        self.state = State::Inactive;
        Ok((Aborted {}, Transfer { to: self.seller, amount: balance }))
    }

    /// `caller` pays `payment`, which must be twice the price, and becomes the buyer.
    pub fn confirm_purchase(&mut self, caller: AccountId, payment: u128) -> (r: Result<PurchaseConfirmed, PurchaseError>)
        requires
            old(self).wf(),
        ensures
            final(self).wf(),
            r is Err ==> final(self)@ == old(self)@,
            old(self)@.state != State::Created ==> r == Err::<PurchaseConfirmed, PurchaseError>(
                PurchaseError::InvalidState,
            ),
            old(self)@.state == State::Created && payment != 2 * old(self)@.value ==> r == Err::<
                PurchaseConfirmed,
                PurchaseError,
            >(PurchaseError::WrongValue),
            old(self)@.state == State::Created && payment == 2 * old(self)@.value ==> {
                &&& r == Ok::<PurchaseConfirmed, PurchaseError>(PurchaseConfirmed {})
                &&& final(self)@ == (PurchaseView { buyer: Some(caller), state: State::Locked, ..old(self)@ })
            },
    {
        if self.state != State::Created {
            return Err(PurchaseError::InvalidState);
        }
        if payment != 2 * self.value {
            return Err(PurchaseError::WrongValue);
        }
        self.buyer = Some(caller);
        self.state = State::Locked;
        Ok(PurchaseConfirmed {})
    }

    /// The buyer confirms receipt: the buyer gets the price back and the seller gets `balance`.
    pub fn confirm_received(&mut self, caller: AccountId, balance: u128) -> (r: Result<
        (ItemReceived, Transfer, Transfer),
        PurchaseError,
    >)
        requires
            old(self).wf(),
        ensures
            final(self).wf(),
            r is Err ==> final(self)@ == old(self)@,
            old(self)@.buyer != Some(caller) ==> r == Err::<(ItemReceived, Transfer, Transfer), PurchaseError>(
                PurchaseError::OnlyBuyer,
            ),
            old(self)@.buyer == Some(caller) && old(self)@.state != State::Locked ==> r == Err::<
                (ItemReceived, Transfer, Transfer),
                PurchaseError,
            >(PurchaseError::InvalidState),
            old(self)@.buyer == Some(caller) && old(self)@.state == State::Locked ==> {
                &&& r == Ok::<(ItemReceived, Transfer, Transfer), PurchaseError>(
                    (
                        ItemReceived {},
                        Transfer { to: caller, amount: old(self)@.value },
                        Transfer { to: old(self)@.seller, amount: balance },
                    ),
                )
                &&& final(self)@ == (PurchaseView { state: State::Inactive, ..old(self)@ })
            },
    {
        if self.buyer != Some(caller) {
            return Err(PurchaseError::OnlyBuyer);
        }
        if self.state != State::Locked {
            return Err(PurchaseError::InvalidState);
        }
        self.state = State::Inactive;
        Ok((ItemReceived {}, Transfer { to: caller, amount: self.value }, Transfer { to: self.seller, amount: balance }))
    }

    /// The price: half of each deposit.
    pub fn value(&self) -> (r: u128)
        ensures
            r == self@.value,
    {
        self.value
    }

    /// The seller's identity.
    pub fn seller(&self) -> (r: AccountId)
        ensures
            r == self@.seller,
    {
        self.seller
    }

    /// The buyer's identity, once there is one.
    pub fn buyer(&self) -> (r: Option<AccountId>)
        ensures
            r == self@.buyer,
    {
        self.buyer
    }

    /// The current stage.
    pub fn state(&self) -> (r: State)
        ensures
            r == self@.state,
    {
        self.state
    }
}

} // verus!
