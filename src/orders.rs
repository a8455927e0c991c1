use vstd::prelude::*;
use crate::api_models::{CreateBuyOrderRequest, CreateSellOrderRequest};
use crate::clock::{now_unix_seconds, seconds_in_days, SECONDS_PER_DAY};
use crate::errors::{DataError, ErrorKind};
use crate::ledger::outcome;
use crate::models::{BuyOrder, SellOrder};

verus! {

/// The abstract state of the order book: orders in the order they were
/// recorded.
pub struct OrderBookModel {
    pub buy_orders: Seq<BuyOrder>,
    pub sell_orders: Seq<SellOrder>,
}

impl OrderBookModel {
    /// Order identifiers are issued in order from 1, separately per side.
    pub open spec fn wf(self) -> bool {
        &&& self.buy_orders.len() <= i32::MAX
        &&& self.sell_orders.len() <= i32::MAX
        &&& forall|i: int| 0 <= i < self.buy_orders.len() ==> #[trigger] self.buy_orders[i].buy_order_id == i + 1
        &&& forall|i: int|
            0 <= i < self.sell_orders.len() ==> #[trigger] self.sell_orders[i].sell_order_id == i + 1
    }
}

/// The expiry of an order created at `now` that lasts `expiry_days` days.
pub open spec fn expiry_spec(now: int, expiry_days: int) -> int {
    now + expiry_days * SECONDS_PER_DAY
}

/// An order can be recorded when its expiry is not negative, its expiry
/// time is representable, and an identifier is left.
pub open spec fn order_acceptable(count: int, now: int, expiry_days: int) -> bool {
    &&& expiry_days >= 0
    &&& expiry_spec(now, expiry_days) <= i64::MAX
    &&& count < i32::MAX
}

/// Recording a buy order at time `now`. No funds are reserved or moved.
pub open spec fn create_buy_order_spec(m: OrderBookModel, req: CreateBuyOrderRequest, now: int) -> (
    OrderBookModel,
    Result<BuyOrder, ErrorKind>,
) {
    if !order_acceptable(m.buy_orders.len() as int, now, req.expiry_days as int) {
        (m, Err(ErrorKind::OrderCreation))
    } else {
        let order = BuyOrder {
            buy_order_id: (m.buy_orders.len() + 1) as i32,
            issuer_id: req.issuer_id,
            buy_currency_amount: req.buy_amount,
            created_at: now as i64,
            updated_at: now as i64,
            expires_at: expiry_spec(now, req.expiry_days as int) as i64,
            buy_currency_id: req.buy_currency_id,
            sell_currency_id: req.sell_currency_id,
        };
        (OrderBookModel { buy_orders: m.buy_orders.push(order), sell_orders: m.sell_orders }, Ok(order))
    }
}

/// Recording a sell order at time `now`. No funds are reserved or moved.
pub open spec fn create_sell_order_spec(m: OrderBookModel, req: CreateSellOrderRequest, now: int) -> (
    OrderBookModel,
    Result<SellOrder, ErrorKind>,
) {
    if !order_acceptable(m.sell_orders.len() as int, now, req.expiry_days as int) {
        (m, Err(ErrorKind::OrderCreation))
    } else {
        let order = SellOrder {
            sell_order_id: (m.sell_orders.len() + 1) as i32,
            issuer_id: req.issuer_id,
            sell_currency_amount: req.sell_amount,
            created_at: now as i64,
            updated_at: now as i64,
            expires_at: expiry_spec(now, req.expiry_days as int) as i64,
            sell_currency_id: req.sell_currency_id,
            buy_currency_id: req.buy_currency_id,
        };
        (OrderBookModel { buy_orders: m.buy_orders, sell_orders: m.sell_orders.push(order) }, Ok(order))
    }
}

/// The first `limit` items of `s`, or all of them when there are fewer.
pub open spec fn first_n<T>(s: Seq<T>, limit: int) -> Seq<T> {
    if limit < s.len() {
        s.take(limit)
    } else {
        s
    }
}

/// Buy and sell orders: standing intents only. The exchange engine neither
/// reads nor changes them.
pub struct OrderBook {
    buy_orders: Vec<BuyOrder>,
    sell_orders: Vec<SellOrder>,
}

impl View for OrderBook {
    type V = OrderBookModel;

    closed spec fn view(&self) -> OrderBookModel {
        OrderBookModel { buy_orders: self.buy_orders@, sell_orders: self.sell_orders@ }
    }
}

impl OrderBook {
    pub open spec fn wf(&self) -> bool {
        self@.wf()
    }

    /// An empty order book.
    pub fn new() -> (r: OrderBook)
        ensures
            r.wf(),
            r@.buy_orders.len() == 0,
            r@.sell_orders.len() == 0,
    {
        OrderBook { buy_orders: Vec::new(), sell_orders: Vec::new() }
    }

    /// The expiry time, when the order can be recorded.
    fn expiry_at(count: usize, now: i64, expiry_days: i32) -> (r: Option<i64>)
        ensures
            r is Some <==> order_acceptable(count as int, now as int, expiry_days as int),
            r is Some ==> r->Some_0 == expiry_spec(now as int, expiry_days as int),
    {
        if expiry_days < 0 || count >= i32::MAX as usize {
            return None;
        }
        let span = seconds_in_days(expiry_days as i64);
        if now > i64::MAX - span {
            None
        } else {
            Some(now + span)
        }
    }

    /// Records a buy order created at `now` (a Unix timestamp in seconds),
    /// expiring `expiry_days` days later.
    pub fn create_buy_order_at(&mut self, req: &CreateBuyOrderRequest, now: i64) -> (r: Result<
        BuyOrder,
        DataError,
    >)
        requires
            old(self).wf(),
        ensures
            final(self).wf(),
            (final(self)@, outcome(r)) == create_buy_order_spec(old(self)@, *req, now as int),
    {
        let ghost m = self@;
        let expiry = Self::expiry_at(self.buy_orders.len(), now, req.expiry_days);
        if expiry.is_none() {
            return Err(DataError::OrderCreationError("Failed to create order".to_string()));
        }
        let order = BuyOrder {
            buy_order_id: (self.buy_orders.len() + 1) as i32,
            issuer_id: req.issuer_id,
            buy_currency_amount: req.buy_amount,
            created_at: now,
            updated_at: now,
            expires_at: expiry.unwrap(),
            buy_currency_id: req.buy_currency_id,
            sell_currency_id: req.sell_currency_id,
        };
        self.buy_orders.push(order);
        proof {
            assert(self@.buy_orders =~= create_buy_order_spec(m, *req, now as int).0.buy_orders);
        }
        Ok(order)
    }

    /// Records a sell order created at `now` (a Unix timestamp in seconds),
    /// expiring `expiry_days` days later.
    pub fn create_sell_order_at(&mut self, req: &CreateSellOrderRequest, now: i64) -> (r: Result<
        SellOrder,
        DataError,
    >)
        requires
            old(self).wf(),
        ensures
            final(self).wf(),
            (final(self)@, outcome(r)) == create_sell_order_spec(old(self)@, *req, now as int),
    {
        let ghost m = self@;
        let expiry = Self::expiry_at(self.sell_orders.len(), now, req.expiry_days);
        if expiry.is_none() {
            return Err(DataError::OrderCreationError("Failed to create order".to_string()));
        }
        let order = SellOrder {
            sell_order_id: (self.sell_orders.len() + 1) as i32,
            issuer_id: req.issuer_id,
            sell_currency_amount: req.sell_amount,
            created_at: now,
            updated_at: now,
            expires_at: expiry.unwrap(),
            sell_currency_id: req.sell_currency_id,
            buy_currency_id: req.buy_currency_id,
        };
        self.sell_orders.push(order);
        proof {
            assert(self@.sell_orders =~= create_sell_order_spec(m, *req, now as int).0.sell_orders);
        }
        Ok(order)
    }

    /// Records a buy order created now, by the system clock.
    pub fn create_buy_order(&mut self, req: &CreateBuyOrderRequest) -> (r: Result<BuyOrder, DataError>)
        requires
            old(self).wf(),
        ensures
            final(self).wf(),
            exists|now: i64| (final(self)@, outcome(r)) == create_buy_order_spec(old(self)@, *req, now as int),
    {
        let now = now_unix_seconds();
        self.create_buy_order_at(req, now)
    }

    /// Records a sell order created now, by the system clock.
    pub fn create_sell_order(&mut self, req: &CreateSellOrderRequest) -> (r: Result<SellOrder, DataError>)
        requires
            old(self).wf(),
        ensures
            final(self).wf(),
            exists|now: i64|
                (final(self)@, outcome(r)) == create_sell_order_spec(old(self)@, *req, now as int),
    {
        let now = now_unix_seconds();
        self.create_sell_order_at(req, now)
    }

    /// Up to `limit` buy orders, in the order they were recorded.
    pub fn find_buy_orders(&self, limit: i64) -> (r: Vec<BuyOrder>)
        requires
            limit >= 0,
        ensures
            r@ == first_n(self@.buy_orders, limit as int),
    {
        let mut out: Vec<BuyOrder> = Vec::new();
        let mut i: usize = 0;
        while i < self.buy_orders.len() && (i as i64) < limit
            invariant
                0 <= i <= self.buy_orders@.len(),
                i <= limit,
                out@ == self.buy_orders@.take(i as int),
            decreases self.buy_orders@.len() - i,
        {
            out.push(self.buy_orders[i]);
            i = i + 1;
            assert(out@ =~= self.buy_orders@.take(i as int));
        }
        assert(self@.buy_orders == self.buy_orders@);
        proof {
            if i as int == self.buy_orders@.len() {
                assert(self.buy_orders@.take(i as int) =~= self.buy_orders@);
            }
        }
        out
    }

    /// Up to `limit` sell orders, in the order they were recorded.
    pub fn find_sell_orders(&self, limit: i64) -> (r: Vec<SellOrder>)
        requires
            limit >= 0,
        ensures
            r@ == first_n(self@.sell_orders, limit as int),
    {
        let mut out: Vec<SellOrder> = Vec::new();
        let mut i: usize = 0;
        while i < self.sell_orders.len() && (i as i64) < limit
            invariant
                0 <= i <= self.sell_orders@.len(),
                i <= limit,
                out@ == self.sell_orders@.take(i as int),
            decreases self.sell_orders@.len() - i,
        {
            out.push(self.sell_orders[i]);
            i = i + 1;
            assert(out@ =~= self.sell_orders@.take(i as int));
        }
        assert(self@.sell_orders == self.sell_orders@);
        proof {
            if i as int == self.sell_orders@.len() {
                assert(self.sell_orders@.take(i as int) =~= self.sell_orders@);
            }
        }
        out
    }
}

} // verus!
