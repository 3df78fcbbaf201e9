//! The order store and the matching and settlement engine.
//!
//! Orders are numbered from 1 in the order they are created and are never
//! removed, so the order with id `n` sits at position `n - 1` of the store.
//! `match_orders` settles exactly one sell order against one buy order of
//! the same quantity, at the seller's price; `match_and_settle` does the
//! same and moves the trade's value in a token ledger in the same step.
use crate::auth::{authorized, Principal};
use crate::ledger::{settle_result, EnergyToken, LedgerError};
use vstd::prelude::*;

verus! {

/// The side of an order.
#[derive(Clone, Copy, Debug, PartialEq, Eq, Structural)]
pub enum OrderType {
    Buy,
    Sell,
}

/// Where an order stands. Orders move forward only: from `Open` to
/// `Completed` or `Cancelled`, possibly through `Matched`.
#[derive(Clone, Copy, Debug, PartialEq, Eq, Structural)]
pub enum OrderStatus {
    Open,
    Matched,
    Completed,
    Cancelled,
}

/// One order of the store.
#[derive(Debug)]
pub struct EnergyOrder {
    pub order_id: u64,
    pub user: Principal,
    pub order_type: OrderType,
    /// Quantity, in kWh.
    pub kwh_amount: i128,
    /// Unit price, in token units per kWh.
    pub price_per_kwh: i128,
    pub status: OrderStatus,
    /// The producing or consuming device; not interpreted.
    pub device_id: String,
    /// The yield paid out when this order was settled as the sell side;
    /// zero otherwise.
    pub yield_generated: i128,
}

/// Why an order operation was refused.
#[derive(Clone, Copy, Debug, PartialEq, Eq, Structural)]
pub enum MarketError {
    /// The caller is not the principal the operation requires.
    Unauthorized,
    /// The quantity is zero or negative.
    InvalidQuantity,
    /// The unit price is zero or negative.
    InvalidPrice,
    /// No order has the given id.
    OrderNotFound,
    /// One of the two orders is no longer open.
    OrderNotOpen,
    /// The first order is not a sell order, or the second not a buy order.
    InvalidOrderTypes,
    /// The two orders are for different quantities.
    QuantityMismatch,
    /// The buyer's price is below the seller's.
    PriceTooLow,
    /// The buyer holds less than the trade costs.
    InsufficientBalance,
    /// An order id or a trade value would not fit its integer type.
    Overflow,
}

/// The value that a settled trade moves: the notional paid to the seller
/// at the seller's price, and the yield credited on top of it.
#[derive(Clone, Copy, Debug, PartialEq, Eq, Structural)]
pub struct Settlement {
    pub notional: i128,
    pub yield_amount: i128,
}

/// The order store of one marketplace, with its administrator.
pub struct Marketplace {
    admin: Principal,
    energy_token: Principal,
    orders: Vec<EnergyOrder>,
}

/// The yield on a trade of value `amount`: five percent, rounded down.
pub open spec fn yield_of(amount: int) -> int {
    amount * 5 / 100
}

/// The order with id `id` in a store laid out by id.
pub open spec fn order_at(orders: Seq<EnergyOrder>, id: u64) -> Option<EnergyOrder> {
    if 1 <= id && id <= orders.len() {
        Some(orders[id - 1])
    } else {
        None
    }
}

/// The order that `create_order` stores.
pub open spec fn new_order(id: u64, user: Principal, order_type: OrderType, kwh_amount: i128, price_per_kwh: i128, device_id: String) -> EnergyOrder {
    EnergyOrder {
        order_id: id,
        user,
        order_type,
        kwh_amount,
        price_per_kwh,
        status: OrderStatus::Open,
        device_id,
        yield_generated: 0,
    }
}

/// What `create_order` returns on a store holding `count` orders.
pub open spec fn create_result(count: int, caller: Principal, user: Principal, kwh_amount: int, price_per_kwh: int) -> Result<u64, MarketError> {
    if caller != user {
        Err(MarketError::Unauthorized)
    } else if kwh_amount <= 0 {
        Err(MarketError::InvalidQuantity)
    } else if price_per_kwh <= 0 {
        Err(MarketError::InvalidPrice)
    } else if count >= u64::MAX {
        Err(MarketError::Overflow)
    } else {
        Ok((count + 1) as u64)
    }
}

/// What settling `sell` against `buy` returns once both orders are found.
pub open spec fn pair_result(sell: EnergyOrder, buy: EnergyOrder) -> Result<Settlement, MarketError> {
    if sell.status != OrderStatus::Open || buy.status != OrderStatus::Open {
        Err(MarketError::OrderNotOpen)
    } else if sell.order_type != OrderType::Sell || buy.order_type != OrderType::Buy {
        Err(MarketError::InvalidOrderTypes)
    } else if sell.kwh_amount != buy.kwh_amount {
        Err(MarketError::QuantityMismatch)
    } else if buy.price_per_kwh < sell.price_per_kwh {
        Err(MarketError::PriceTooLow)
    } else if sell.kwh_amount * sell.price_per_kwh > i128::MAX {
        Err(MarketError::Overflow)
    } else {
        Ok(
            Settlement {
                notional: (sell.kwh_amount * sell.price_per_kwh) as i128,
                yield_amount: yield_of(sell.kwh_amount * sell.price_per_kwh) as i128,
            },
        )
    }
}

/// What `match_orders` returns, given the administrator and the orders.
pub open spec fn match_result(admin: Principal, orders: Seq<EnergyOrder>, caller: Principal, sell_id: u64, buy_id: u64) -> Result<Settlement, MarketError> {
    if caller != admin {
        Err(MarketError::Unauthorized)
    } else {
        match (order_at(orders, sell_id), order_at(orders, buy_id)) {
            (Some(sell), Some(buy)) => pair_result(sell, buy),
            _ => Err(MarketError::OrderNotFound),
        }
    }
}

/// The marketplace error that reports a refusal of the ledger. A match
/// never hands the ledger a negative amount, so `InvalidAmount` does not
/// arise there.
pub open spec fn spec_market_error_of(e: LedgerError) -> MarketError {
    match e {
        LedgerError::Unauthorized => MarketError::Unauthorized,
        LedgerError::InvalidAmount => MarketError::InvalidQuantity,
        LedgerError::InsufficientBalance => MarketError::InsufficientBalance,
        LedgerError::Overflow => MarketError::Overflow,
    }
}

/// The marketplace error that reports a refusal of the ledger.
fn market_error_of(e: LedgerError) -> (r: MarketError)
    ensures
        r == spec_market_error_of(e),
{
    match e {
        LedgerError::Unauthorized => MarketError::Unauthorized,
        LedgerError::InvalidAmount => MarketError::InvalidQuantity,
        LedgerError::InsufficientBalance => MarketError::InsufficientBalance,
        LedgerError::Overflow => MarketError::Overflow,
    }
}

/// What `match_and_settle` returns: the outcome of the match, and once the
/// match is sound, that of the ledger moving the notional from the buyer
/// and the notional plus the yield to the seller.
pub open spec fn match_and_settle_result(
    admin: Principal,
    orders: Seq<EnergyOrder>,
    ledger: &EnergyToken,
    caller: Principal,
    sell_id: u64,
    buy_id: u64,
) -> Result<Settlement, MarketError> {
    match match_result(admin, orders, caller, sell_id, buy_id) {
        Err(e) => Err(e),
        Ok(s) => if s.notional + s.yield_amount > i128::MAX {
            Err(MarketError::Overflow)
        } else {
            match settle_result(
                ledger,
                caller,
                orders[buy_id - 1].user,
                orders[sell_id - 1].user,
                s.notional as int,
                s.notional + s.yield_amount,
            ) {
                Ok(_) => Ok(s),
                Err(e) => Err(spec_market_error_of(e)),
            }
        },
    }
}

/// `o` once settled, with `y` recorded as its yield.
pub open spec fn completed(o: EnergyOrder, y: i128) -> EnergyOrder {
    EnergyOrder { status: OrderStatus::Completed, yield_generated: y, ..o }
}

/// A copy of `o`.
fn copy_order(o: &EnergyOrder) -> (r: EnergyOrder)
    ensures
        r == *o,
{
    EnergyOrder {
        order_id: o.order_id,
        user: o.user,
        order_type: o.order_type,
        kwh_amount: o.kwh_amount,
        price_per_kwh: o.price_per_kwh,
        status: o.status,
        device_id: o.device_id.clone(),
        yield_generated: o.yield_generated,
    }
}

impl Marketplace {
    /// The principal allowed to match orders.
    pub closed spec fn spec_admin(&self) -> Principal {
        self.admin
    }

    /// The token contract that the marketplace settles in.
    pub closed spec fn spec_energy_token(&self) -> Principal {
        self.energy_token
    }

    /// The orders, the one with id `n` at position `n - 1`.
    pub closed spec fn spec_orders(&self) -> Seq<EnergyOrder> {
        self.orders@
    }

    /// Ids follow positions, the count of orders fits an id, and every
    /// order has a positive quantity and price.
    pub open spec fn wf(&self) -> bool {
        &&& self.spec_orders().len() <= u64::MAX
        &&& forall|i: int|
            0 <= i < self.spec_orders().len() ==> {
                &&& (#[trigger] self.spec_orders()[i]).order_id == i + 1
                &&& self.spec_orders()[i].kwh_amount > 0
                &&& self.spec_orders()[i].price_per_kwh > 0
            }
    }

    /// An empty store administered by `admin`, settling in `token`.
    pub fn initialize(admin: Principal, token: Principal) -> (r: Marketplace)
        ensures
            r.wf(),
            r.spec_admin() == admin,
            r.spec_energy_token() == token,
            r.spec_orders().len() == 0,
    {
        Marketplace { admin, energy_token: token, orders: Vec::new() }
    }

    /// The number of orders created so far, which is also the last id issued.
    pub fn order_count(&self) -> (r: u64)
        requires
            self.wf(),
        ensures
            r == self.spec_orders().len(),
    {
        self.orders.len() as u64
    }

    /// Stores a new open order for `user` and returns its id, the next in
    /// sequence. Only `user` may place an order of their own, and quantity
    /// and price must be positive.
    pub fn create_order(
        &mut self,
        caller: Principal,
        user: Principal,
        order_type: OrderType,
        kwh_amount: i128,
        price_per_kwh: i128,
        device_id: String,
    ) -> (r: Result<u64, MarketError>)
        requires
            old(self).wf(),
        ensures
            final(self).wf(),
            final(self).spec_admin() == old(self).spec_admin(),
            final(self).spec_energy_token() == old(self).spec_energy_token(),
            r == create_result(old(self).spec_orders().len() as int, caller, user, kwh_amount as int, price_per_kwh as int),
            r is Ok ==> final(self).spec_orders() == old(self).spec_orders().push(
                new_order(r->Ok_0, user, order_type, kwh_amount, price_per_kwh, device_id),
            ),
            r is Err ==> final(self).spec_orders() == old(self).spec_orders(),
    {
        if !authorized(caller, user) {
            return Err(MarketError::Unauthorized);
        }
        if kwh_amount <= 0 {
            return Err(MarketError::InvalidQuantity);
        }
        if price_per_kwh <= 0 {
            return Err(MarketError::InvalidPrice);
        }
        let count = self.orders.len() as u64;
        if count == u64::MAX {
            return Err(MarketError::Overflow);
        }
        let id = count + 1;
        self.orders.push(
            EnergyOrder {
                order_id: id,
                user,
                order_type,
                kwh_amount,
                price_per_kwh,
                status: OrderStatus::Open,
                device_id,
                yield_generated: 0,
            },
        );
        Ok(id)
    }

    /// The order with id `order_id`, or `None` where there is none.
    pub fn get_order(&self, order_id: u64) -> (r: Option<EnergyOrder>)
        requires
            self.wf(),
        ensures
            r == order_at(self.spec_orders(), order_id),
    {
        if 1 <= order_id && order_id <= self.orders.len() as u64 {
            Some(copy_order(&self.orders[(order_id - 1) as usize]))
        } else {
            None
        }
    }

    /// The yield on a trade of value `amount`: five percent, rounded down.
    pub fn calculate_yield(amount: i128) -> (r: i128)
        requires
            amount >= 0,
        ensures
            r == yield_of(amount as int),
            0 <= r <= amount,
    {
        let whole = amount / 100;
        let rest = amount % 100;
        proof {
            assert(amount == whole * 100 + rest);
            assert(yield_of(amount as int) == whole * 5 + rest * 5 / 100) by (nonlinear_arith)
                requires
                    amount == whole * 100 + rest,
                    0 <= rest < 100,
                    whole >= 0,
            ;
        }
        whole * 5 + rest * 5 / 100
    }
    /// What matching `sell_id` against `buy_id` would return, without
    /// changing anything.
    fn check_match(&self, caller: Principal, sell_id: u64, buy_id: u64) -> (r: Result<Settlement, MarketError>)
        requires
            self.wf(),
        ensures
            r == match_result(self.spec_admin(), self.spec_orders(), caller, sell_id, buy_id),
            r is Ok ==> 1 <= sell_id <= self.spec_orders().len() && 1 <= buy_id <= self.spec_orders().len()
                && sell_id != buy_id && 0 <= r->Ok_0.yield_amount <= r->Ok_0.notional,
    {
        if !authorized(caller, self.admin) {
            return Err(MarketError::Unauthorized);
        }
        let count = self.orders.len() as u64;
        if sell_id < 1 || sell_id > count || buy_id < 1 || buy_id > count {
            return Err(MarketError::OrderNotFound);
        }
        let sell = &self.orders[(sell_id - 1) as usize];
        let buy = &self.orders[(buy_id - 1) as usize];
        if sell.status != OrderStatus::Open || buy.status != OrderStatus::Open {
            return Err(MarketError::OrderNotOpen);
        }
        if sell.order_type != OrderType::Sell || buy.order_type != OrderType::Buy {
            return Err(MarketError::InvalidOrderTypes);
        }
        if sell.kwh_amount != buy.kwh_amount {
            return Err(MarketError::QuantityMismatch);
        }
        if buy.price_per_kwh < sell.price_per_kwh {
            return Err(MarketError::PriceTooLow);
        }
        let notional = match sell.kwh_amount.checked_mul(sell.price_per_kwh) {
            Some(n) => n,
            None => return Err(MarketError::Overflow),
        };
        proof {
            assert(notional >= 0) by (nonlinear_arith)
                requires
                    notional == sell.kwh_amount * sell.price_per_kwh,
                    sell.kwh_amount > 0,
                    sell.price_per_kwh > 0,
            ;
        }
        let yield_amount = Marketplace::calculate_yield(notional);
        Ok(Settlement { notional, yield_amount })
    }

    /// Completes the two orders of a checked match, recording `yield_amount`
    /// on the sell order.
    fn complete_pair(&mut self, sell_id: u64, buy_id: u64, yield_amount: i128)
        requires
            old(self).wf(),
            1 <= sell_id <= old(self).spec_orders().len(),
            1 <= buy_id <= old(self).spec_orders().len(),
            sell_id != buy_id,
        ensures
            final(self).wf(),
            final(self).spec_admin() == old(self).spec_admin(),
            final(self).spec_energy_token() == old(self).spec_energy_token(),
            final(self).spec_orders() == old(self).spec_orders().update(
                sell_id - 1,
                completed(old(self).spec_orders()[sell_id - 1], yield_amount),
            ).update(
                buy_id - 1,
                completed(
                    old(self).spec_orders()[buy_id - 1],
                    old(self).spec_orders()[buy_id - 1].yield_generated,
                ),
            ),
    {
        let count = self.orders.len();
        assert(sell_id <= count && buy_id <= count);
        let si = (sell_id - 1) as usize;
        let bi = (buy_id - 1) as usize;
        let ghost before = self.orders@;
        self.orders[si].status = OrderStatus::Completed;
        self.orders[si].yield_generated = yield_amount;
        self.orders[bi].status = OrderStatus::Completed;
        assert(self.orders@ =~= before.update(si as int, completed(before[si as int], yield_amount)).update(
            bi as int,
            completed(before[bi as int], before[bi as int].yield_generated),
        ));
    }

    /// Settles the sell order `sell_id` against the buy order `buy_id`.
    /// Only the administrator may match. Both orders must exist and be
    /// open, `sell_id` must be a sell order and `buy_id` a buy order, the
    /// quantities must be equal and the buyer's price at least the
    /// seller's. The trade is valued at the seller's price. On success both
    /// orders are completed and the sell order records the yield; on any
    /// failure nothing changes.
    pub fn match_orders(&mut self, caller: Principal, sell_id: u64, buy_id: u64) -> (r: Result<Settlement, MarketError>)
        requires
            old(self).wf(),
        ensures
            final(self).wf(),
            final(self).spec_admin() == old(self).spec_admin(),
            final(self).spec_energy_token() == old(self).spec_energy_token(),
            r == match_result(old(self).spec_admin(), old(self).spec_orders(), caller, sell_id, buy_id),
            r is Ok ==> final(self).spec_orders() == old(self).spec_orders().update(
                sell_id - 1,
                completed(old(self).spec_orders()[sell_id - 1], r->Ok_0.yield_amount),
            ).update(
                buy_id - 1,
                completed(
                    old(self).spec_orders()[buy_id - 1],
                    old(self).spec_orders()[buy_id - 1].yield_generated,
                ),
            ),
            r is Err ==> final(self).spec_orders() == old(self).spec_orders(),
    {
        let s = match self.check_match(caller, sell_id, buy_id) {
            Ok(s) => s,
            Err(e) => return Err(e),
        };
        self.complete_pair(sell_id, buy_id, s.yield_amount);
        Ok(s)
    }

    /// Matches as `match_orders` does and moves the trade's value in
    /// `ledger` in the same step: the buyer pays the notional and the seller
    /// receives the notional plus the yield. The caller must administer
    /// both the marketplace and the ledger. Either the two orders are
    /// completed and both balances change, or nothing changes at all.
    pub fn match_and_settle(&mut self, ledger: &mut EnergyToken, caller: Principal, sell_id: u64, buy_id: u64) -> (r: Result<Settlement, MarketError>)
        requires
            old(self).wf(),
            old(ledger).wf(),
        ensures
            final(self).wf(),
            final(ledger).wf(),
            final(self).spec_admin() == old(self).spec_admin(),
            final(self).spec_energy_token() == old(self).spec_energy_token(),
            r == match_and_settle_result(old(self).spec_admin(), old(self).spec_orders(), old(ledger), caller, sell_id, buy_id),
            r is Ok ==> {
                &&& final(self).spec_orders() == old(self).spec_orders().update(
                    sell_id - 1,
                    completed(old(self).spec_orders()[sell_id - 1], r->Ok_0.yield_amount),
                ).update(
                    buy_id - 1,
                    completed(
                        old(self).spec_orders()[buy_id - 1],
                        old(self).spec_orders()[buy_id - 1].yield_generated,
                    ),
                )
                &&& final(ledger).spec_admin() == old(ledger).spec_admin()
                &&& forall|b: Principal| #[trigger] final(ledger).spec_balance(b) == old(ledger).spec_balance(b) - (
                    if b == old(self).spec_orders()[buy_id - 1].user {
                        r->Ok_0.notional as int
                    } else {
                        0
                    }) + (if b == old(self).spec_orders()[sell_id - 1].user {
                        r->Ok_0.notional + r->Ok_0.yield_amount
                    } else {
                        0
                    })
            },
            r is Err ==> final(self).spec_orders() == old(self).spec_orders() && *final(ledger) == *old(ledger),
    {
        let s = match self.check_match(caller, sell_id, buy_id) {
            Ok(s) => s,
            Err(e) => return Err(e),
        };
        if s.notional > i128::MAX - s.yield_amount {
            return Err(MarketError::Overflow);
        }
        let count = self.orders.len();
        assert(sell_id <= count && buy_id <= count);
        let buyer = self.orders[(buy_id - 1) as usize].user;
        let seller = self.orders[(sell_id - 1) as usize].user;
        match ledger.settle(caller, buyer, seller, s.notional, s.notional + s.yield_amount) {
            Ok(()) => {},
            Err(e) => return Err(market_error_of(e)),
        }
        self.complete_pair(sell_id, buy_id, s.yield_amount);
        Ok(s)
    }
}
/// Ids are issued in sequence: a successful `create_order` on a store of
/// `count` orders returns `count + 1`, and the next successful call, on the
/// store of `count + 1` orders that it leaves, returns one more. A failed
/// call leaves the store as it was and so issues no id.
pub proof fn lemma_ids_consecutive(
    count: int,
    first: (Principal, Principal, int, int),
    second: (Principal, Principal, int, int),
)
    requires
        0 <= count,
        create_result(count, first.0, first.1, first.2, first.3) is Ok,
        create_result(count + 1, second.0, second.1, second.2, second.3) is Ok,
    ensures
        create_result(count, first.0, first.1, first.2, first.3)->Ok_0 == count + 1,
        create_result(count + 1, second.0, second.1, second.2, second.3)->Ok_0 == create_result(
            count,
            first.0,
            first.1,
            first.2,
            first.3,
        )->Ok_0 + 1,
{
}

/// In every well-formed store the ids strictly increase with position, by
/// exactly the distance between positions: no gap and no repeat.
pub proof fn lemma_ids_strictly_increasing(m: &Marketplace)
    requires
        m.wf(),
    ensures
        forall|i: int, j: int|
            0 <= i < j < m.spec_orders().len() ==> (#[trigger] m.spec_orders()[i]).order_id < (
            #[trigger] m.spec_orders()[j]).order_id && m.spec_orders()[j].order_id - m.spec_orders()[i].order_id == j - i,
{
}

/// The administrator matching an open sell order against an open buy order
/// of a different quantity gets `QuantityMismatch`, whatever the prices;
/// like every failed match, it leaves both orders as they were.
pub proof fn lemma_quantity_mismatch_fails(admin: Principal, orders: Seq<EnergyOrder>, sell_id: u64, buy_id: u64)
    requires
        order_at(orders, sell_id) is Some,
        order_at(orders, buy_id) is Some,
        order_at(orders, sell_id)->Some_0.status == OrderStatus::Open,
        order_at(orders, buy_id)->Some_0.status == OrderStatus::Open,
        order_at(orders, sell_id)->Some_0.order_type == OrderType::Sell,
        order_at(orders, buy_id)->Some_0.order_type == OrderType::Buy,
        order_at(orders, sell_id)->Some_0.kwh_amount != order_at(orders, buy_id)->Some_0.kwh_amount,
    ensures
        match_result(admin, orders, admin, sell_id, buy_id) == Err::<Settlement, MarketError>(
            MarketError::QuantityMismatch,
        ),
{
}

/// The administrator matching an open sell order against an open buy order
/// of the same quantity at a lower price gets `PriceTooLow`.
pub proof fn lemma_price_too_low_fails(admin: Principal, orders: Seq<EnergyOrder>, sell_id: u64, buy_id: u64)
    requires
        order_at(orders, sell_id) is Some,
        order_at(orders, buy_id) is Some,
        order_at(orders, sell_id)->Some_0.status == OrderStatus::Open,
        order_at(orders, buy_id)->Some_0.status == OrderStatus::Open,
        order_at(orders, sell_id)->Some_0.order_type == OrderType::Sell,
        order_at(orders, buy_id)->Some_0.order_type == OrderType::Buy,
        order_at(orders, sell_id)->Some_0.kwh_amount == order_at(orders, buy_id)->Some_0.kwh_amount,
        order_at(orders, buy_id)->Some_0.price_per_kwh < order_at(orders, sell_id)->Some_0.price_per_kwh,
    ensures
        match_result(admin, orders, admin, sell_id, buy_id) == Err::<Settlement, MarketError>(
            MarketError::PriceTooLow,
        ),
{
}

/// The administrator matching two open orders with the ids in the wrong
/// slots, the buy order first, gets `InvalidOrderTypes`: the orders are
/// never matched with their sides swapped.
pub proof fn lemma_swapped_sides_fail(admin: Principal, orders: Seq<EnergyOrder>, sell_id: u64, buy_id: u64)
    requires
        order_at(orders, sell_id) is Some,
        order_at(orders, buy_id) is Some,
        order_at(orders, sell_id)->Some_0.status == OrderStatus::Open,
        order_at(orders, buy_id)->Some_0.status == OrderStatus::Open,
        order_at(orders, sell_id)->Some_0.order_type == OrderType::Buy,
        order_at(orders, buy_id)->Some_0.order_type == OrderType::Sell,
    ensures
        match_result(admin, orders, admin, sell_id, buy_id) == Err::<Settlement, MarketError>(
            MarketError::InvalidOrderTypes,
        ),
{
}

} // verus!
