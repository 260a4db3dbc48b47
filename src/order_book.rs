//! The order book: listing live orders by resource, side and price, paging,
//! and the per-resource market summary.
use vstd::prelude::*;
use crate::market::{TradeOrder, TradeOrderStatus, TradeOrderType, is_live};
use crate::resources::TradeResourceType;

verus! {

/// Page size when none is asked for.
pub const DEFAULT_LIMIT: i32 = 20;

/// Largest page size.
pub const MAX_LIMIT: i32 = 100;

/// Milliseconds in a day.
pub const DAY_MILLIS: i64 = 86_400_000;

/// A completed trade.
#[derive(Debug, Clone, Copy, PartialEq, Eq, Structural)]
pub struct TradeTransaction {
    pub id: u128,
    pub buy_order_id: u128,
    pub sell_order_id: u128,
    pub buyer_id: u128,
    pub seller_id: u128,
    pub buyer_village_id: u128,
    pub seller_village_id: u128,
    pub resource_type: TradeResourceType,
    pub quantity: i32,
    pub price_per_unit: i32,
    pub total_gold: i64,
    /// Milliseconds since the epoch.
    pub created_at: i64,
}

/// Filters and paging of an order-book listing.
#[derive(Debug, Clone, Copy, PartialEq, Eq, Structural)]
pub struct GetOrdersQuery {
    pub resource_type: Option<TradeResourceType>,
    pub order_type: Option<TradeOrderType>,
    pub min_price: Option<i32>,
    pub max_price: Option<i32>,
    pub page: Option<i32>,
    pub limit: Option<i32>,
}

/// A page of a listing.
#[derive(Debug, Clone, Copy, PartialEq, Eq, Structural)]
pub struct PaginationQuery {
    pub page: i32,
    pub limit: i32,
}

/// Which trades of a user's history to list.
#[derive(Debug, Clone, Copy, PartialEq, Eq, Structural)]
pub struct TransactionQuery {
    pub resource_type: Option<TradeResourceType>,
    pub limit: i32,
}

/// Which of a user's own orders to list.
#[derive(Debug, Clone, Copy, PartialEq, Eq, Structural)]
pub struct UserOrdersQuery {
    pub status: Option<TradeOrderStatus>,
}

/// The state of the market in one resource.
#[derive(Debug, Clone, Copy, PartialEq, Eq, Structural)]
pub struct MarketSummary {
    pub resource_type: TradeResourceType,
    /// Highest price among live buy orders.
    pub best_buy_price: Option<i32>,
    /// Lowest price among live sell orders.
    pub best_sell_price: Option<i32>,
    /// Best sell price minus best buy price, when both exist.
    pub spread: Option<i32>,
    /// Price of the latest trade.
    pub last_trade_price: Option<i32>,
    /// Units traded in the last day.
    pub volume_24h: i64,
    /// Trades in the last day.
    pub trade_count_24h: i64,
}

/// `v` held within `[lo, hi]`.
pub open spec fn clamp_i(v: int, lo: int, hi: int) -> int {
    if v < lo {
        lo
    } else if v > hi {
        hi
    } else {
        v
    }
}

/// `s[off .. off + len]`, cut at the end of `s`.
pub open spec fn page_of<T>(s: Seq<T>, off: int, len: int) -> Seq<T> {
    let a = if off < s.len() {
        off
    } else {
        s.len() as int
    };
    let b = if off + len < s.len() {
        off + len
    } else {
        s.len() as int
    };
    s.subrange(a, b)
}

impl GetOrdersQuery {
    /// The page asked for, at least one.
    pub open spec fn spec_page(self) -> int {
        match self.page {
            Some(p) => if p < 1 {
                1
            } else {
                p as int
            },
            None => 1,
        }
    }

    /// The page size asked for, within `[1, MAX_LIMIT]`.
    pub open spec fn spec_limit(self) -> int {
        clamp_i(
            match self.limit {
                Some(l) => l as int,
                None => DEFAULT_LIMIT as int,
            },
            1,
            MAX_LIMIT as int,
        )
    }

    /// Whether a live order passes the filters.
    pub open spec fn admits(self, o: TradeOrder) -> bool {
        &&& is_live(o.status)
        &&& (self.resource_type matches Some(t) ==> o.resource_type == t)
        &&& (self.order_type matches Some(t) ==> o.order_type == t)
        &&& (self.min_price matches Some(p) ==> o.price_per_unit >= p)
        &&& (self.max_price matches Some(p) ==> o.price_per_unit <= p)
    }

    /// The page number, at least one.
    pub fn page_number(&self) -> (r: i64)
        ensures
            r == self.spec_page(),
    {
        match self.page {
            Some(p) => if p < 1 {
                1
            } else {
                p as i64
            },
            None => 1,
        }
    }

    /// The page size, within `[1, MAX_LIMIT]`.
    pub fn page_limit(&self) -> (r: i64)
        ensures
            r == self.spec_limit(),
            1 <= r <= MAX_LIMIT,
    {
        let l = match self.limit {
            Some(l) => l,
            None => DEFAULT_LIMIT,
        };
        if l < 1 {
            1
        } else if l > MAX_LIMIT {
            MAX_LIMIT as i64
        } else {
            l as i64
        }
    }

    /// Whether a live order passes the filters.
    pub fn admits_order(&self, o: &TradeOrder) -> (r: bool)
        ensures
            r == self.admits(*o),
    {
        let live = match o.status {
            TradeOrderStatus::Open | TradeOrderStatus::PartiallyFilled => true,
            _ => false,
        };
        let kind_ok = match self.resource_type {
            Some(t) => o.resource_type == t,
            None => true,
        };
        let side_ok = match self.order_type {
            Some(t) => o.order_type == t,
            None => true,
        };
        let min_ok = match self.min_price {
            Some(p) => o.price_per_unit >= p,
            None => true,
        };
        let max_ok = match self.max_price {
            Some(p) => o.price_per_unit <= p,
            None => true,
        };
        live && kind_ok && side_ok && min_ok && max_ok
    }
}

impl PaginationQuery {
    pub fn default_page() -> (r: i32)
        ensures
            r == 1,
    {
        1
    }

    pub fn default_limit() -> (r: i32)
        ensures
            r == DEFAULT_LIMIT,
    {
        DEFAULT_LIMIT
    }

    /// The page size, within `[1, MAX_LIMIT]`.
    pub fn clamped_limit(&self) -> (r: i64)
        ensures
            r == clamp_i(self.limit as int, 1, MAX_LIMIT as int),
    {
        if self.limit < 1 {
            1
        } else if self.limit > MAX_LIMIT {
            MAX_LIMIT as i64
        } else {
            self.limit as i64
        }
    }

    /// Rows to skip: (page − 1) · size, the page taken as at least one.
    pub fn offset(&self) -> (r: i64)
        ensures
            r == (clamp_i(self.page as int, 1, i32::MAX as int) - 1) * clamp_i(
                self.limit as int,
                1,
                MAX_LIMIT as int,
            ),
            r >= 0,
    {
        let p: i64 = if self.page < 1 {
            1
        } else {
            self.page as i64
        };
        let l = self.clamped_limit();
        proof {
            assert(0 <= (p - 1) * l <= i32::MAX * 100) by (nonlinear_arith)
                requires
                    1 <= p <= i32::MAX,
                    1 <= l <= 100,
            ;
        }
        (p - 1) * l
    }
}

impl UserOrdersQuery {
    /// Whether an order passes the status filter.
    pub fn admits_order(&self, o: &TradeOrder) -> (r: bool)
        ensures
            r == (self.status matches Some(s) ==> o.status == s),
    {
        match self.status {
            Some(s) => o.status == s,
            None => true,
        }
    }
}

/// The orders among `os` that pass the filters of `q`, in their order.
pub open spec fn filter_orders(os: Seq<TradeOrder>, q: GetOrdersQuery) -> Seq<TradeOrder>
    decreases os.len(),
{
    if os.len() == 0 {
        seq![]
    } else {
        let rest = filter_orders(os.drop_last(), q);
        if q.admits(os.last()) {
            rest.push(os.last())
        } else {
            rest
        }
    }
}

/// Whether `o` is a live order of side `side` in resource `t`.
pub open spec fn live_side(o: TradeOrder, t: TradeResourceType, side: TradeOrderType) -> bool {
    is_live(o.status) && o.resource_type == t && o.order_type == side
}

/// The highest price among the live buy orders of `t`.
pub open spec fn best_buy(os: Seq<TradeOrder>, t: TradeResourceType) -> Option<i32>
    decreases os.len(),
{
    if os.len() == 0 {
        None
    } else {
        let rest = best_buy(os.drop_last(), t);
        let o = os.last();
        if live_side(o, t, TradeOrderType::Buy) && (rest matches Some(p) ==> o.price_per_unit > p) {
            Some(o.price_per_unit)
        } else {
            rest
        }
    }
}

/// The lowest price among the live sell orders of `t`.
pub open spec fn best_sell(os: Seq<TradeOrder>, t: TradeResourceType) -> Option<i32>
    decreases os.len(),
{
    if os.len() == 0 {
        None
    } else {
        let rest = best_sell(os.drop_last(), t);
        let o = os.last();
        if live_side(o, t, TradeOrderType::Sell) && (rest matches Some(p) ==> o.price_per_unit < p) {
            Some(o.price_per_unit)
        } else {
            rest
        }
    }
}

/// Whether trade `x` is in resource `t` and no older than `since`.
pub open spec fn recent(x: TradeTransaction, t: TradeResourceType, since: int) -> bool {
    x.resource_type == t && x.created_at >= since
}

/// Units and count of the trades in `t` since `since`.
pub open spec fn volume_since(xs: Seq<TradeTransaction>, t: TradeResourceType, since: int) -> (int, int)
    decreases xs.len(),
{
    if xs.len() == 0 {
        (0, 0)
    } else {
        let rest = volume_since(xs.drop_last(), t, since);
        if recent(xs.last(), t, since) {
            (rest.0 + xs.last().quantity, rest.1 + 1)
        } else {
            rest
        }
    }
}

/// The price of the last trade in `t`, the history being in time order.
pub open spec fn last_price(xs: Seq<TradeTransaction>, t: TradeResourceType) -> Option<i32>
    decreases xs.len(),
{
    if xs.len() == 0 {
        None
    } else if xs.last().resource_type == t {
        Some(xs.last().price_per_unit)
    } else {
        last_price(xs.drop_last(), t)
    }
}

/// The order book's read operations.
pub struct OrderBook;

impl OrderBook {
    /// The page that `query` asks for of the live orders passing its filters.
    pub fn get_open_orders(orders: &Vec<TradeOrder>, query: &GetOrdersQuery) -> (r: Vec<TradeOrder>)
        ensures
            r@ == page_of(
                filter_orders(orders@, *query),
                (query.spec_page() - 1) * query.spec_limit(),
                query.spec_limit(),
            ),
    {
        let mut matching: Vec<TradeOrder> = Vec::new();
        let mut i: usize = 0;
        while i < orders.len()
            invariant
                i <= orders@.len(),
                matching@ == filter_orders(orders@.take(i as int), *query),
            decreases orders@.len() - i,
        {
            let o = orders[i];
            proof {
                assert(orders@.take(i + 1).drop_last() =~= orders@.take(i as int));
                assert(orders@.take(i + 1).last() == o);
            }
            if query.admits_order(&o) {
                matching.push(o);
            }
            i = i + 1;
        }
        proof {
            assert(orders@.take(orders@.len() as int) =~= orders@);
        }
        let page = query.page_number();
        let limit = query.page_limit();
        proof {
            assert(0 <= (page - 1) * limit <= i32::MAX * 100) by (nonlinear_arith)
                requires
                    1 <= page <= i32::MAX,
                    1 <= limit <= 100,
            ;
        }
        let offset = ((page - 1) * limit) as i128;
        let n = matching.len();
        let a: usize = if offset < n as i128 {
            offset as usize
        } else {
            n
        };
        let b: usize = if offset + (limit as i128) < n as i128 {
            (offset + limit as i128) as usize
        } else {
            n
        };
        let mut r: Vec<TradeOrder> = Vec::new();
        let mut k: usize = a;
        while k < b
            invariant
                a <= k <= b <= n == matching@.len(),
                r@ == matching@.subrange(a as int, k as int),
            decreases b - k,
        {
            r.push(matching[k]);
            proof {
                assert(r@ =~= matching@.subrange(a as int, k + 1));
            }
            k = k + 1;
        }
        r
    }

    /// The summary of resource `t`: best prices of the live orders, their
    /// spread, the last trade's price, and the volume and count of the trades
    /// of the day before `now`. `history` is in time order.
    pub fn market_summary(
        orders: &Vec<TradeOrder>,
        history: &Vec<TradeTransaction>,
        t: TradeResourceType,
        now: i64,
    ) -> (r: MarketSummary)
        requires
            history@.len() <= u32::MAX,
            forall|i: int| 0 <= i < history@.len() ==> 0 <= #[trigger] history@[i].quantity,
            forall|i: int| 0 <= i < orders@.len() ==> 1 <= #[trigger] orders@[i].price_per_unit <= 10_000,
        ensures
            r.resource_type == t,
            r.best_buy_price == best_buy(orders@, t),
            r.best_sell_price == best_sell(orders@, t),
            r.spread == match (best_sell(orders@, t), best_buy(orders@, t)) {
                (Some(s), Some(b)) => Some((s - b) as i32),
                _ => None::<i32>,
            },
            r.last_trade_price == last_price(history@, t),
            r.volume_24h == volume_since(history@, t, now - DAY_MILLIS).0,
            r.trade_count_24h == volume_since(history@, t, now - DAY_MILLIS).1,
    {
        let mut buy: Option<i32> = None;
        let mut sell: Option<i32> = None;
        let mut i: usize = 0;
        while i < orders.len()
            invariant
                i <= orders@.len(),
                buy == best_buy(orders@.take(i as int), t),
                sell == best_sell(orders@.take(i as int), t),
                forall|j: int| 0 <= j < orders@.len() ==> 1 <= #[trigger] orders@[j].price_per_unit <= 10_000,
                buy matches Some(p) ==> 1 <= p <= 10_000,
                sell matches Some(p) ==> 1 <= p <= 10_000,
            decreases orders@.len() - i,
        {
            let o = orders[i];
            proof {
                assert(orders@.take(i + 1).drop_last() =~= orders@.take(i as int));
                assert(orders@.take(i + 1).last() == o);
            }
            let live = match o.status {
                TradeOrderStatus::Open | TradeOrderStatus::PartiallyFilled => true,
                _ => false,
            };
            if live && o.resource_type == t {
                match o.order_type {
                    TradeOrderType::Buy => {
                        let better = match buy {
                            Some(p) => o.price_per_unit > p,
                            None => true,
                        };
                        if better {
                            buy = Some(o.price_per_unit);
                        }
                    },
                    TradeOrderType::Sell => {
                        let better = match sell {
                            Some(p) => o.price_per_unit < p,
                            None => true,
                        };
                        if better {
                            sell = Some(o.price_per_unit);
                        }
                    },
                }
            }
            i = i + 1;
        }
        proof {
            assert(orders@.take(orders@.len() as int) =~= orders@);
        }
        let since = now as i128 - DAY_MILLIS as i128;
        let mut volume: i64 = 0;
        let mut count: i64 = 0;
        let mut last: Option<i32> = None;
        let mut k: usize = 0;
        while k < history.len()
            invariant
                k <= history@.len() <= u32::MAX,
                forall|j: int| 0 <= j < history@.len() ==> 0 <= #[trigger] history@[j].quantity,
                since == now - DAY_MILLIS,
                (volume as int, count as int) == volume_since(history@.take(k as int), t, since as int),
                0 <= volume <= k * i32::MAX,
                0 <= count <= k,
                last == last_price(history@.take(k as int), t),
            decreases history@.len() - k,
        {
            let x = history[k];
            proof {
                assert(history@.take(k + 1).drop_last() =~= history@.take(k as int));
                assert(history@.take(k + 1).last() == x);
                assert(0 <= x.quantity);
            }
            if x.resource_type == t {
                last = Some(x.price_per_unit);
                if x.created_at as i128 >= since {
                    volume = volume + x.quantity as i64;
                    count = count + 1;
                }
            }
            k = k + 1;
        }
        proof {
            assert(history@.take(history@.len() as int) =~= history@);
        }
        let spread = match (sell, buy) {
            (Some(s), Some(b)) => Some(s - b),
            _ => None,
        };
        MarketSummary {
            resource_type: t,
            best_buy_price: buy,
            best_sell_price: sell,
            spread,
            last_trade_price: last,
            volume_24h: volume,
            trade_count_24h: count,
        }
    }
}

} // verus!
