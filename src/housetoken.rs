//! A registry of house tokens: the admin mints houses, anyone sets a house's price, and a
//! buyer pays the seller and the royalty collector to take ownership.
use crate::AccountId;
use vstd::prelude::*;

verus! {

/// Identity of a house; houses are numbered from 1 in order of creation.
pub type HouseId = i32;

/// The largest royalty, in thousandths of the price.
pub const MAX_ROYALTY: u128 = 1000;

/// A house and its sale terms.
#[derive(Debug)]
pub struct House {
    pub id: HouseId,
    pub owner: AccountId,
    pub royalty_collector: AccountId,
    pub home_address: String,
    pub sq_feet: i32,
    pub bed_rooms: i32,
    pub bath_rooms: i32,
    pub price: u128,
    /// Thousandths of each thousand of the price paid to the royalty collector.
    pub royalty: u128,
}

/// Why a house-token call was rejected.
#[derive(Clone, Copy, Debug, PartialEq, Eq, Structural)]
pub enum HouseError {
    NotAdmin,
    RoyaltyTooHigh,
    HouseNotFound,
    CannotBuyOwnHouse,
}

/// Emitted when a house is sold.
#[derive(Clone, Copy, Debug, PartialEq, Eq, Structural)]
pub struct BoughtHouse {
    pub house_id: HouseId,
    pub seller: AccountId,
    pub buyer: AccountId,
}

/// Emitted when a house token is sent.
#[derive(Clone, Copy, Debug, PartialEq, Eq, Structural)]
pub struct SentHouse {
    pub house_id: HouseId,
    pub from: AccountId,
    pub to: AccountId,
}

/// Emitted when a house's price changes.
#[derive(Clone, Copy, Debug, PartialEq, Eq, Structural)]
pub struct ChangedPrice {
    pub house_id: HouseId,
    pub old_price: u128,
    pub new_price: u128,
}

/// A payment that the environment must carry out.
#[derive(Clone, Copy, Debug, PartialEq, Eq, Structural)]
pub struct Payment {
    pub to: AccountId,
    pub amount: u128,
}

/// Everything a sale asks of the environment: two payments and the token's move.
#[derive(Clone, Copy, Debug, PartialEq, Eq, Structural)]
pub struct Sale {
    pub event: BoughtHouse,
    pub to_seller: Payment,
    pub to_royalty_collector: Payment,
    /// The token to move to the buyer.
    pub token: u8,
}

/// The registry's state.
pub struct Housetoken {
    houses: Vec<House>,
    next_id: HouseId,
    admin: AccountId,
}

/// The royalty share of a sale at `price` with royalty `royalty`.
pub open spec fn royalty_payment(royalty: u128, price: u128) -> int {
    royalty * (price / 1000)
}

impl Housetoken {
    /// The administrator, who alone creates houses.
    pub closed spec fn admin_spec(&self) -> AccountId {
        self.admin
    }

    /// The houses in order of creation: house `id` stands at index `id - 1`.
    pub closed spec fn houses(&self) -> Seq<House> {
        self.houses@
    }

    /// The id the next house gets.
    pub closed spec fn next_id_spec(&self) -> int {
        self.next_id as int
    }

    /// House `id` exists.
    pub open spec fn has_house(&self, id: int) -> bool {
        1 <= id <= self.houses().len()
    }

    /// The record of house `id`.
    pub open spec fn house(&self, id: int) -> House {
        self.houses()[id - 1]
    }

    /// Ids are dense from 1, each house knows its id, and royalties are within bounds.
    pub closed spec fn wf(&self) -> bool {
        &&& self.next_id as int == self.houses@.len() + 1
        &&& forall|k: int| 0 <= k < self.houses@.len() ==> #[trigger] self.houses@[k].id == k + 1
        &&& forall|k: int| 0 <= k < self.houses@.len() ==> #[trigger] self.houses@[k].royalty <= MAX_ROYALTY
    }

    /// A registry administered by `caller`, with no houses.
    pub fn new(caller: AccountId) -> (r: Housetoken)
        ensures
            r.wf(),
            r.admin_spec() == caller,
            r.houses().len() == 0,
            r.next_id_spec() == 1,
    {
        Housetoken { houses: Vec::new(), next_id: 1, admin: caller }
    }

    /// Takes the next house id.
    fn house_next_id(&mut self) -> (r: HouseId)
        requires
            old(self).next_id < i32::MAX,
        ensures
            r == old(self).next_id,
            final(self).next_id == old(self).next_id + 1,
            final(self).houses == old(self).houses,
            final(self).admin == old(self).admin,
    {
        let id = self.next_id;
        self.next_id = self.next_id + 1;
        id
    }

    /// The admin creates a house owned by the admin, who also collects its royalties;
    /// returns its id and the token to mint to the admin.
    pub fn create_house(
        &mut self,
        caller: AccountId,
        home_address: String,
        sq_feet: i32,
        bed_rooms: i32,
        bath_rooms: i32,
        price: u128,
        royalty: u128,
    ) -> (r: Result<(HouseId, u8), HouseError>)
        requires
            old(self).wf(),
            old(self).next_id_spec() < i32::MAX,
        ensures
            final(self).wf(),
            r is Err ==> final(self).houses() == old(self).houses() && final(self).next_id_spec()
                == old(self).next_id_spec(),
            caller != old(self).admin_spec() ==> r == Err::<(HouseId, u8), HouseError>(HouseError::NotAdmin),
            caller == old(self).admin_spec() && royalty > MAX_ROYALTY ==> r == Err::<(HouseId, u8), HouseError>(
                HouseError::RoyaltyTooHigh,
            ),
            caller == old(self).admin_spec() && royalty <= MAX_ROYALTY ==> {
                let id = old(self).next_id_spec();
                &&& r == Ok::<(HouseId, u8), HouseError>((id as i32, id as u8))
                &&& final(self).houses() == old(self).houses().push(
                    House {
                        id: id as i32,
                        owner: caller,
                        royalty_collector: caller,
                        home_address,
                        sq_feet,
                        bed_rooms,
                        bath_rooms,
                        price,
                        royalty,
                    },
                )
                &&& final(self).next_id_spec() == id + 1
            },
            final(self).admin_spec() == old(self).admin_spec(),
    {
        if self.admin != caller {
            return Err(HouseError::NotAdmin);
        }
        if royalty > MAX_ROYALTY {
            return Err(HouseError::RoyaltyTooHigh);
        }
        let id = self.house_next_id();
        let house = House {
            id,
            owner: caller,
            royalty_collector: caller,
            home_address,
            sq_feet,
            bed_rooms,
            bath_rooms,
            price,
            royalty,
        };
        self.houses.push(house);
        Ok((id, id as u8))
    }

    /// A copy of house `id`, if it exists.
    pub fn get_house(&self, id: HouseId) -> (r: Option<House>)
        requires
            self.wf(),
        ensures
            r is None <==> !self.has_house(id as int),
            r matches Some(h) ==> h == self.house(id as int),
    {
        if id < 1 || id as usize > self.houses.len() {
            return None;
        }
        let h = &self.houses[(id - 1) as usize];
        Some(
            House {
                id: h.id,
                owner: h.owner,
                royalty_collector: h.royalty_collector,
                home_address: h.home_address.clone(),
                sq_feet: h.sq_feet,
                bed_rooms: h.bed_rooms,
                bath_rooms: h.bath_rooms,
                price: h.price,
                royalty: h.royalty,
            },
        )
    }
    /// Sets the price of house `id`.
    pub fn change_price(&mut self, id: HouseId, new_price: u128) -> (r: Result<ChangedPrice, HouseError>)
        requires
            old(self).wf(),
        ensures
            final(self).wf(),
            final(self).admin_spec() == old(self).admin_spec(),
            final(self).next_id_spec() == old(self).next_id_spec(),
            !old(self).has_house(id as int) ==> r == Err::<ChangedPrice, HouseError>(HouseError::HouseNotFound)
                && final(self).houses() == old(self).houses(),
            old(self).has_house(id as int) ==> {
                let h = old(self).house(id as int);
                &&& r == Ok::<ChangedPrice, HouseError>(
                    ChangedPrice { house_id: id, old_price: h.price, new_price },
                )
                &&& final(self).houses() == old(self).houses().update(id - 1, House { price: new_price, ..h })
            },
    {
        if id < 1 || id as usize > self.houses.len() {
            return Err(HouseError::HouseNotFound);
        }
        let k = (id - 1) as usize;
        let old_price = self.houses[k].price;
        self.houses[k].price = new_price;
        proof {
            assert forall|j: int| 0 <= j < self.houses@.len() implies #[trigger] self.houses@[j].id == j + 1 by {
                assert(old(self).houses@[j].id == j + 1);
            }
            assert forall|j: int| 0 <= j < self.houses@.len() implies #[trigger] self.houses@[j].royalty
                <= MAX_ROYALTY by {
                assert(old(self).houses@[j].royalty <= MAX_ROYALTY);
            }
        }
        Ok(ChangedPrice { house_id: id, old_price, new_price })
    }

    /// `caller` buys house `id` at its price: the royalty collector gets `royalty`
    /// thousandths of each whole thousand of the price, the seller the rest, and the caller
    /// becomes the owner.
    pub fn buy_house(&mut self, caller: AccountId, id: HouseId) -> (r: Result<Sale, HouseError>)
        requires
            old(self).wf(),
        ensures
            final(self).wf(),
            final(self).admin_spec() == old(self).admin_spec(),
            final(self).next_id_spec() == old(self).next_id_spec(),
            r is Err ==> final(self).houses() == old(self).houses(),
            !old(self).has_house(id as int) ==> r == Err::<Sale, HouseError>(HouseError::HouseNotFound),
            old(self).has_house(id as int) && old(self).house(id as int).owner == caller ==> r == Err::<
                Sale,
                HouseError,
            >(HouseError::CannotBuyOwnHouse),
            old(self).has_house(id as int) && old(self).house(id as int).owner != caller ==> {
                let h = old(self).house(id as int);
                let fee = royalty_payment(h.royalty, h.price);
                &&& 0 <= fee <= h.price
                &&& r == Ok::<Sale, HouseError>(
                    Sale {
                        event: BoughtHouse { house_id: id, seller: h.owner, buyer: caller },
                        to_seller: Payment { to: h.owner, amount: (h.price - fee) as u128 },
                        to_royalty_collector: Payment { to: h.royalty_collector, amount: fee as u128 },
                        token: id as u8,
                    },
                )
                &&& final(self).houses() == old(self).houses().update(id - 1, House { owner: caller, ..h })
            },
    {
        if id < 1 || id as usize > self.houses.len() {
            return Err(HouseError::HouseNotFound);
        }
        let k = (id - 1) as usize;
        let seller = self.houses[k].owner;
        if seller == caller {
            return Err(HouseError::CannotBuyOwnHouse);
        }
        let royalty = self.houses[k].royalty;
        let price = self.houses[k].price;
        let collector = self.houses[k].royalty_collector;
        proof {
            assert(royalty <= MAX_ROYALTY);
            assert(royalty * (price / 1000) <= price) by (nonlinear_arith)
                requires
                    royalty <= 1000,
            ;
        }
        let fee = royalty * (price / 1000);
        let to_seller = price - fee;
        self.houses[k].owner = caller;
        proof {
            assert forall|j: int| 0 <= j < self.houses@.len() implies #[trigger] self.houses@[j].id == j + 1 by {
                assert(old(self).houses@[j].id == j + 1);
            }
            assert forall|j: int| 0 <= j < self.houses@.len() implies #[trigger] self.houses@[j].royalty
                <= MAX_ROYALTY by {
                assert(old(self).houses@[j].royalty <= MAX_ROYALTY);
            }
        }
        Ok(
            Sale {
                event: BoughtHouse { house_id: id, seller, buyer: caller },
                to_seller: Payment { to: seller, amount: to_seller },
                to_royalty_collector: Payment { to: collector, amount: fee },
                token: id as u8,
            },
        )
    }

    /// The id the next house gets.
    pub fn next_id(&self) -> (r: HouseId)
        ensures
            r == self.next_id_spec(),
    {
        self.next_id
    }
}

} // verus!
