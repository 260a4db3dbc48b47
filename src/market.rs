//! The market engine: orders with escrow, fills, cancellation and expiry.
//!
//! Each operation works on the rows that one store transaction touches: the
//! order, the gold accounts of the two parties, their villages and the
//! escrow lock of a sell order.
use vstd::prelude::*;
use crate::error::GameError;
use crate::gold::{GoldAccount, LedgerKind};
use crate::production::{MAX_INSTANT, VillageStock};
use crate::resources::{Resources, TradeResourceType, single};

verus! {

/// Smallest order quantity, and smallest fill but for the last one.
pub const MIN_QUANTITY: i32 = 100;

/// Largest order quantity.
pub const MAX_QUANTITY: i32 = 1_000_000;

/// Smallest price per unit, in gold.
pub const MIN_PRICE: i32 = 1;

/// Largest price per unit, in gold.
pub const MAX_PRICE: i32 = 10_000;

/// Most orders a user may have open at once.
pub const MAX_OPEN_ORDERS_PER_USER: i64 = 50;

/// Longest expiry, in hours.
pub const MAX_EXPIRY_HOURS: i32 = 168;

/// Milliseconds in one hour.
pub const HOUR_MS: i64 = 3_600_000;

/// The most gold that one order can move: `MAX_QUANTITY · MAX_PRICE`.
pub const MAX_ORDER_GOLD: i64 = 10_000_000_000;

#[derive(Debug, Clone, Copy, PartialEq, Eq, Structural)]
pub enum TradeOrderStatus {
    Open,
    PartiallyFilled,
    Filled,
    Cancelled,
    Expired,
}

#[derive(Debug, Clone, Copy, PartialEq, Eq, Structural)]
pub enum TradeOrderType {
    Buy,
    Sell,
}

/// What an escrow lock holds resources for.
#[derive(Debug, Clone, Copy, PartialEq, Eq, Structural)]
pub enum LockType {
    TradeOrder,
    Mission,
}

/// An offer on the market board.
#[derive(Debug, Clone, Copy, PartialEq, Eq, Structural)]
pub struct TradeOrder {
    pub id: u128,
    pub user_id: u128,
    pub village_id: u128,
    pub order_type: TradeOrderType,
    pub resource_type: TradeResourceType,
    pub quantity: i32,
    pub quantity_filled: i32,
    pub price_per_unit: i32,
    pub status: TradeOrderStatus,
    /// Instant in milliseconds since the epoch after which the order is expired.
    pub expires_at: Option<i64>,
}

/// Resources reserved in a village on behalf of an order or a mission.
#[derive(Debug, Clone, Copy)]
pub struct ResourceLock {
    pub id: u128,
    pub village_id: u128,
    pub lock_type: LockType,
    pub reference_id: u128,
    pub amounts: Resources,
    pub released: bool,
}

impl ResourceLock {
    /// The units of `t` that the lock holds back: none once released.
    pub open spec fn held(self, t: TradeResourceType) -> int {
        if self.released {
            0
        } else {
            self.amounts.amount(t)
        }
    }

    /// The amounts the lock holds.
    pub fn to_resources(&self) -> (r: Resources)
        ensures
            r == self.amounts,
    {
        self.amounts
    }
}

/// The parameters of a new order.
#[derive(Debug, Clone, Copy)]
pub struct CreateOrderRequest {
    pub village_id: u128,
    pub order_type: TradeOrderType,
    pub resource_type: TradeResourceType,
    pub quantity: i32,
    pub price_per_unit: i32,
    /// Hours until the order expires; none for an order that never does.
    pub expires_in_hours: Option<i32>,
}

/// The parameters of a fill.
#[derive(Debug, Clone, Copy)]
pub struct AcceptOrderRequest {
    pub village_id: u128,
    /// Units to take; none for all that remain.
    pub quantity: Option<i32>,
}

/// Open and partially filled orders may still be filled or cancelled.
pub open spec fn is_live(s: TradeOrderStatus) -> bool {
    s == TradeOrderStatus::Open || s == TradeOrderStatus::PartiallyFilled
}

/// The status that an order of `quantity` has after `filled` units.
pub open spec fn status_for(quantity: int, filled: int) -> TradeOrderStatus {
    if filled >= quantity {
        TradeOrderStatus::Filled
    } else if filled > 0 {
        TradeOrderStatus::PartiallyFilled
    } else {
        TradeOrderStatus::Open
    }
}

impl TradeOrder {
    pub open spec fn remaining(self) -> int {
        self.quantity - self.quantity_filled
    }

    /// Quantity, price and filled amount in range, and a status that agrees
    /// with the filled amount.
    pub open spec fn wf(self) -> bool {
        &&& 1 <= self.quantity <= MAX_QUANTITY
        &&& MIN_PRICE <= self.price_per_unit <= MAX_PRICE
        &&& 0 <= self.quantity_filled <= self.quantity
        &&& match self.status {
            TradeOrderStatus::Open => self.quantity_filled == 0,
            TradeOrderStatus::PartiallyFilled => 0 < self.quantity_filled < self.quantity,
            TradeOrderStatus::Filled => self.quantity_filled == self.quantity,
            _ => self.quantity_filled < self.quantity,
        }
    }

    pub open spec fn spec_is_expired(self, now: int) -> bool {
        match self.expires_at {
            Some(e) => now > e,
            None => false,
        }
    }

    /// Gold that a buy order still holds in escrow.
    pub open spec fn held_gold(self) -> int {
        if self.order_type == TradeOrderType::Buy && is_live(self.status) {
            self.remaining() * self.price_per_unit
        } else {
            0
        }
    }

    /// The order after `n` more units are filled.
    pub open spec fn after_fill(self, n: int) -> TradeOrder {
        TradeOrder {
            quantity_filled: (self.quantity_filled + n) as i32,
            status: status_for(self.quantity as int, self.quantity_filled + n),
            ..self
        }
    }

    /// Units still to be filled.
    pub fn quantity_remaining(&self) -> (r: i32)
        requires
            self.wf(),
        ensures
            r == self.remaining(),
    {
        self.quantity - self.quantity_filled
    }

    /// Gold value of the whole order.
    pub fn total_cost(&self) -> (r: i64)
        requires
            self.wf(),
        ensures
            r == self.quantity * self.price_per_unit,
    {
        proof {
            lemma_trade_gold_bound(self.quantity as int, self.price_per_unit as int);
        }
        self.quantity as i64 * self.price_per_unit as i64
    }

    /// Gold value of what remains.
    pub fn remaining_cost(&self) -> (r: i64)
        requires
            self.wf(),
        ensures
            r == self.remaining() * self.price_per_unit,
            0 <= r <= MAX_ORDER_GOLD,
    {
        proof {
            lemma_trade_gold_bound(self.remaining(), self.price_per_unit as int);
        }
        (self.quantity - self.quantity_filled) as i64 * self.price_per_unit as i64
    }

    pub fn can_cancel(&self) -> (r: bool)
        ensures
            r == is_live(self.status),
    {
        match self.status {
            TradeOrderStatus::Open | TradeOrderStatus::PartiallyFilled => true,
            _ => false,
        }
    }

    pub fn can_fill(&self) -> (r: bool)
        requires
            self.wf(),
        ensures
            r == (is_live(self.status) && self.remaining() > 0),
    {
        self.can_cancel() && self.quantity - self.quantity_filled > 0
    }

    /// Whether the expiry has passed at `now`.
    pub fn is_expired(&self, now: i64) -> (r: bool)
        ensures
            r == self.spec_is_expired(now as int),
    {
        match self.expires_at {
            Some(e) => now > e,
            None => false,
        }
    }
}

proof fn lemma_trade_gold_bound(q: int, p: int)
    requires
        0 <= q <= MAX_QUANTITY,
        0 <= p <= MAX_PRICE,
    ensures
        0 <= q * p <= MAX_ORDER_GOLD,
{
    assert(0 <= q * p <= 1_000_000 * 10_000) by (nonlinear_arith)
        requires
            0 <= q <= 1_000_000,
            0 <= p <= 10_000,
    ;
}

/// The lock of a sell order matches the order: while the order is live it
/// holds exactly the unfilled units of the order's resource, in the order's
/// village, and afterwards it is released.
pub open spec fn escrow_ok(o: TradeOrder, l: ResourceLock) -> bool {
    &&& l.reference_id == o.id
    &&& l.lock_type == LockType::TradeOrder
    &&& l.village_id == o.village_id
    &&& if is_live(o.status) {
        !l.released && l.amounts == single(o.resource_type, o.remaining() as i32)
    } else {
        l.released
    }
}

/// Σ units of `t` held by the active locks of village `v`.
pub open spec fn locked_sum(locks: Seq<ResourceLock>, v: u128, t: TradeResourceType) -> int
    decreases locks.len(),
{
    if locks.len() == 0 {
        0
    } else {
        let l = locks.last();
        locked_sum(locks.drop_last(), v, t) + if l.village_id == v {
            l.held(t)
        } else {
            0
        }
    }
}

/// The first rule that the parameters of a new order break, if any.
pub open spec fn request_error(req: CreateOrderRequest) -> Option<GameError> {
    if req.quantity < MIN_QUANTITY {
        Some(GameError::QuantityTooSmall)
    } else if req.quantity > MAX_QUANTITY {
        Some(GameError::QuantityTooLarge)
    } else if req.price_per_unit < MIN_PRICE {
        Some(GameError::PriceTooLow)
    } else if req.price_per_unit > MAX_PRICE {
        Some(GameError::PriceTooHigh)
    } else {
        match req.expires_in_hours {
            Some(h) => if h < 1 {
                Some(GameError::ExpiryTooShort)
            } else if h > MAX_EXPIRY_HOURS {
                Some(GameError::ExpiryTooLong)
            } else {
                None
            },
            None => None,
        }
    }
}

/// The checks common to both sides of a new order, in order: the parameters,
/// the open-order limit, then ownership of the village.
pub open spec fn create_error(
    req: CreateOrderRequest,
    user_id: u128,
    village_owner: u128,
    open_orders: int,
) -> Option<GameError> {
    if request_error(req).is_some() {
        request_error(req)
    } else if open_orders >= MAX_OPEN_ORDERS_PER_USER {
        Some(GameError::TooManyOpenOrders)
    } else if village_owner != user_id {
        Some(GameError::NotOwner)
    } else {
        None
    }
}

/// The order that a valid request creates at `now`.
pub open spec fn new_order(req: CreateOrderRequest, id: u128, user_id: u128, now: int) -> TradeOrder {
    TradeOrder {
        id,
        user_id,
        village_id: req.village_id,
        order_type: req.order_type,
        resource_type: req.resource_type,
        quantity: req.quantity,
        quantity_filled: 0,
        price_per_unit: req.price_per_unit,
        status: TradeOrderStatus::Open,
        expires_at: match req.expires_in_hours {
            Some(h) => Some((now + h * HOUR_MS) as i64),
            None => None,
        },
    }
}

/// The escrow lock of a new sell order.
pub open spec fn new_sell_lock(o: TradeOrder, lock_id: u128) -> ResourceLock {
    ResourceLock {
        id: lock_id,
        village_id: o.village_id,
        lock_type: LockType::TradeOrder,
        reference_id: o.id,
        amounts: single(o.resource_type, o.quantity),
        released: false,
    }
}

/// The units a fill takes, or why the order cannot be filled as asked, in the
/// order of the checks: state, expiry, own order, then the size of the fill.
pub open spec fn fill_quantity(o: TradeOrder, user_id: u128, quantity: Option<i32>, now: int) -> Result<
    i32,
    GameError,
> {
    if !(is_live(o.status) && o.remaining() > 0) {
        Err(GameError::OrderNotFillable)
    } else if o.spec_is_expired(now) {
        Err(GameError::OrderExpired)
    } else if o.user_id == user_id {
        Err(GameError::OwnOrder)
    } else {
        let fill: int = match quantity {
            Some(q) => q as int,
            None => o.remaining(),
        };
        if fill <= 0 {
            Err(GameError::NonPositiveFill)
        } else if fill > o.remaining() {
            Err(GameError::FillExceedsRemaining { remaining: o.remaining() as i32 })
        } else if fill < MIN_QUANTITY && fill != o.remaining() {
            Err(GameError::FillBelowMinimum)
        } else {
            Ok(fill as i32)
        }
    }
}

/// Why an order cannot be cancelled by `user_id`, if it cannot.
pub open spec fn cancel_error(o: TradeOrder, user_id: u128) -> Option<GameError> {
    if o.user_id != user_id {
        Some(GameError::NotOwner)
    } else if !is_live(o.status) {
        Some(GameError::OrderNotCancellable)
    } else {
        None
    }
}

/// Why an order cannot expire at `now`, if it cannot.
pub open spec fn expire_error(o: TradeOrder, now: int) -> Option<GameError> {
    if !is_live(o.status) {
        Some(GameError::OrderNotCancellable)
    } else {
        match o.expires_at {
            Some(e) => if e <= now {
                None
            } else {
                Some(GameError::NotYetExpired)
            },
            None => Some(GameError::NotYetExpired),
        }
    }
}

/// The outcome of a fill of a sell order: the checks of `fill_quantity`, then
/// ownership of the buyer's village, then the buyer's gold.
pub open spec fn sell_fill_outcome(
    o: TradeOrder,
    user_id: u128,
    quantity: Option<i32>,
    village_owner: u128,
    buyer_balance: int,
    now: int,
) -> Result<i32, GameError> {
    match fill_quantity(o, user_id, quantity, now) {
        Err(e) => Err(e),
        Ok(n) => if village_owner != user_id {
            Err(GameError::NotOwner)
        } else if buyer_balance < n * o.price_per_unit {
            Err(GameError::InsufficientGold)
        } else {
            Ok(n)
        },
    }
}

/// The outcome of a fill of a buy order: the checks of `fill_quantity`, then
/// ownership of the seller's village, then what the seller has beyond its locks.
pub open spec fn buy_fill_outcome(
    o: TradeOrder,
    user_id: u128,
    quantity: Option<i32>,
    village_owner: u128,
    available: int,
    now: int,
) -> Result<i32, GameError> {
    match fill_quantity(o, user_id, quantity, now) {
        Err(e) => Err(e),
        Ok(n) => if village_owner != user_id {
            Err(GameError::NotOwner)
        } else if available < n {
            Err(GameError::InsufficientResources)
        } else {
            Ok(n)
        },
    }
}

/// `r` as an `Option`'s error.
pub open spec fn as_result(e: Option<GameError>) -> Result<(), GameError> {
    match e {
        Some(e) => Err(e),
        None => Ok(()),
    }
}

/// Σ of a sequence of fills.
pub open spec fn sum_fills(fills: Seq<int>) -> int
    decreases fills.len(),
{
    if fills.len() == 0 {
        0
    } else {
        sum_fills(fills.drop_last()) + fills.last()
    }
}

/// Gold paid over a sequence of fills at `price` each.
pub open spec fn paid_for_fills(fills: Seq<int>, price: int) -> int
    decreases fills.len(),
{
    if fills.len() == 0 {
        0
    } else {
        paid_for_fills(fills.drop_last(), price) + fills.last() * price
    }
}

/// A village after receiving each fill in turn.
pub open spec fn deposit_fills(s: VillageStock, t: TradeResourceType, fills: Seq<int>) -> VillageStock
    decreases fills.len(),
{
    if fills.len() == 0 {
        s
    } else {
        deposit_fills(s, t, fills.drop_last()).deposit(t, fills.last())
    }
}

/// A village after giving each fill in turn.
pub open spec fn withdraw_fills(s: VillageStock, t: TradeResourceType, fills: Seq<int>) -> VillageStock
    decreases fills.len(),
{
    if fills.len() == 0 {
        s
    } else {
        withdraw_fills(s, t, fills.drop_last()).withdraw(t, fills.last())
    }
}

/// An order after each fill in turn.
pub open spec fn order_after_fills(o: TradeOrder, fills: Seq<int>) -> TradeOrder
    decreases fills.len(),
{
    if fills.len() == 0 {
        o
    } else {
        order_after_fills(o, fills.drop_last()).after_fill(fills.last())
    }
}

/// Every fill is non-negative.
pub open spec fn fills_nonneg(fills: Seq<int>) -> bool {
    forall|i: int| 0 <= i < fills.len() ==> 0 <= #[trigger] fills[i]
}

proof fn lemma_sum_fills_nonneg(fills: Seq<int>)
    requires
        fills_nonneg(fills),
    ensures
        sum_fills(fills) >= 0,
    decreases fills.len(),
{
    if fills.len() > 0 {
        let init = fills.drop_last();
        assert(fills_nonneg(init)) by {
            assert forall|i: int| 0 <= i < init.len() implies 0 <= #[trigger] init[i] by {
                assert(init[i] == fills[i]);
            }
        }
        assert(0 <= fills[fills.len() - 1]);
        lemma_sum_fills_nonneg(init);
    }
}

/// Filling an order in several parts that add up to `n` leaves the buyer's
/// village, the seller's village, the gold paid and the order itself exactly
/// as one fill of `n` does; the buyer's village is held by its storage either way.
pub proof fn lemma_partial_fills_match_one_fill(
    o: TradeOrder,
    buyer_village: VillageStock,
    seller_village: VillageStock,
    fills: Seq<int>,
)
    requires
        o.wf(),
        is_live(o.status),
        buyer_village.wf(),
        seller_village.wf(),
        fills_nonneg(fills),
        sum_fills(fills) <= o.remaining(),
        sum_fills(fills) <= seller_village.amount(o.resource_type),
    ensures
        deposit_fills(buyer_village, o.resource_type, fills) == buyer_village.deposit(
            o.resource_type,
            sum_fills(fills),
        ),
        withdraw_fills(seller_village, o.resource_type, fills) == seller_village.withdraw(
            o.resource_type,
            sum_fills(fills),
        ),
        paid_for_fills(fills, o.price_per_unit as int) == sum_fills(fills) * o.price_per_unit,
        order_after_fills(o, fills) == o.after_fill(sum_fills(fills)),
    decreases fills.len(),
{
    let t = o.resource_type;
    if fills.len() > 0 {
        let init = fills.drop_last();
        let last = fills.last();
        assert(fills_nonneg(init)) by {
            assert forall|i: int| 0 <= i < init.len() implies 0 <= #[trigger] init[i] by {
                assert(init[i] == fills[i]);
            }
        }
        assert(0 <= fills[fills.len() - 1]);
        lemma_sum_fills_nonneg(init);
        lemma_partial_fills_match_one_fill(o, buyer_village, seller_village, init);
        let a = sum_fills(init);
        let p = o.price_per_unit as int;
        assert(a * p + last * p == (a + last) * p) by (nonlinear_arith);
        assert(0 <= o.quantity_filled + a + last <= o.quantity);
        assert(o.after_fill(a).quantity_filled == o.quantity_filled + a);
        assert(o.after_fill(a).after_fill(last) == o.after_fill(a + last));
        let d = buyer_village.deposit(t, a);
        match t {
            TradeResourceType::Wood => assert(d.deposit(t, last) == buyer_village.deposit(t, a + last)),
            TradeResourceType::Clay => assert(d.deposit(t, last) == buyer_village.deposit(t, a + last)),
            TradeResourceType::Iron => assert(d.deposit(t, last) == buyer_village.deposit(t, a + last)),
            TradeResourceType::Crop => assert(d.deposit(t, last) == buyer_village.deposit(t, a + last)),
        }
    }
}

/// Placing a sell order and cancelling it leaves what the village's active
/// locks hold as it was: the village's own amounts are not touched by either
/// step, so what it can trade is restored.
pub proof fn lemma_sell_create_cancel_restores_locks(
    locks: Seq<ResourceLock>,
    request: CreateOrderRequest,
    order_id: u128,
    user_id: u128,
    now: int,
    lock_id: u128,
    village_id: u128,
    t: TradeResourceType,
)
    ensures
        ({
            let l = new_sell_lock(new_order(request, order_id, user_id, now), lock_id);
            locked_sum(locks.push(ResourceLock { released: true, ..l }), village_id, t) == locked_sum(
                locks,
                village_id,
                t,
            )
        }),
{
    let l = new_sell_lock(new_order(request, order_id, user_id, now), lock_id);
    assert(locks.push(ResourceLock { released: true, ..l }).drop_last() =~= locks);
}

/// Placing a buy order and cancelling it before any fill gives back exactly
/// the gold that placing it took.
pub proof fn lemma_buy_create_cancel_restores_gold(
    request: CreateOrderRequest,
    order_id: u128,
    user_id: u128,
    now: int,
    balance: int,
)
    ensures
        ({
            let o = new_order(request, order_id, user_id, now);
            balance - request.quantity * request.price_per_unit + o.remaining() * o.price_per_unit
                == balance
        }),
{
}

/// The market engine's operations.
pub struct TradeService;

impl TradeService {
    /// Checks quantity, price and expiry of a new order.
    pub fn validate_create_order_request(request: &CreateOrderRequest) -> (r: Result<(), GameError>)
        ensures
            r == match request_error(*request) {
                Some(e) => Err(e),
                None => Ok::<(), GameError>(()),
            },
    {
        if request.quantity < MIN_QUANTITY {
            return Err(GameError::QuantityTooSmall);
        }
        if request.quantity > MAX_QUANTITY {
            return Err(GameError::QuantityTooLarge);
        }
        if request.price_per_unit < MIN_PRICE {
            return Err(GameError::PriceTooLow);
        }
        if request.price_per_unit > MAX_PRICE {
            return Err(GameError::PriceTooHigh);
        }
        if let Some(hours) = request.expires_in_hours {
            if hours < 1 {
                return Err(GameError::ExpiryTooShort);
            }
            if hours > MAX_EXPIRY_HOURS {
                return Err(GameError::ExpiryTooLong);
            }
        }
        Ok(())
    }

    /// Only the owner of a village may trade from it.
    pub fn validate_village_ownership(village_owner: u128, user_id: u128) -> (r: Result<(), GameError>)
        ensures
            r == if village_owner == user_id {
                Ok::<(), GameError>(())
            } else {
                Err(GameError::NotOwner)
            },
    {
        if village_owner != user_id {
            return Err(GameError::NotOwner);
        }
        Ok(())
    }

    /// A user with `open_orders` open orders may place another one only below the limit.
    pub fn check_order_limit(open_orders: i64) -> (r: Result<(), GameError>)
        ensures
            r == if open_orders >= MAX_OPEN_ORDERS_PER_USER {
                Err(GameError::TooManyOpenOrders)
            } else {
                Ok::<(), GameError>(())
            },
    {
        if open_orders >= MAX_OPEN_ORDERS_PER_USER {
            return Err(GameError::TooManyOpenOrders);
        }
        Ok(())
    }

    fn check_create(
        request: &CreateOrderRequest,
        user_id: u128,
        village_owner: u128,
        open_orders: i64,
    ) -> (r: Result<(), GameError>)
        ensures
            r == match create_error(*request, user_id, village_owner, open_orders as int) {
                Some(e) => Err(e),
                None => Ok::<(), GameError>(()),
            },
    {
        Self::validate_create_order_request(request)?;
        Self::check_order_limit(open_orders)?;
        Self::validate_village_ownership(village_owner, user_id)
    }

    fn new_order_of(request: &CreateOrderRequest, id: u128, user_id: u128, now: i64) -> (r: TradeOrder)
        requires
            request_error(*request).is_none(),
            now <= MAX_INSTANT,
        ensures
            r == new_order(*request, id, user_id, now as int),
            r.wf(),
    {
        let expires_at = match request.expires_in_hours {
            Some(h) => Some(now + h as i64 * HOUR_MS),
            None => None,
        };
        TradeOrder {
            id,
            user_id,
            village_id: request.village_id,
            order_type: request.order_type,
            resource_type: request.resource_type,
            quantity: request.quantity,
            quantity_filled: 0,
            price_per_unit: request.price_per_unit,
            status: TradeOrderStatus::Open,
            expires_at,
        }
    }

    /// Σ units of `t` held by the active locks of village `village_id`.
    pub fn locked_amount(locks: &Vec<ResourceLock>, village_id: u128, t: TradeResourceType) -> (r: i64)
        requires
            locks@.len() <= u32::MAX,
        ensures
            r == locked_sum(locks@, village_id, t),
    {
        let mut sum: i64 = 0;
        let mut i: usize = 0;
        while i < locks.len()
            invariant
                i <= locks@.len() <= u32::MAX,
                sum == locked_sum(locks@.take(i as int), village_id, t),
                -0x8000_0000 * i <= sum <= 0x8000_0000 * i,
            decreases locks@.len() - i,
        {
            let l = locks[i];
            proof {
                assert(locks@.take(i + 1).drop_last() =~= locks@.take(i as int));
                assert(locks@.take(i + 1).last() == l);
            }
            if l.village_id == village_id && !l.released {
                sum = sum + l.amounts.get(t) as i64;
            }
            i = i + 1;
        }
        proof {
            assert(locks@.take(locks@.len() as int) =~= locks@);
        }
        sum
    }

    /// Amount of `t` in a village.
    pub fn get_village_resource(village: &VillageStock, resource_type: TradeResourceType) -> (r: i64)
        ensures
            r == village.amount(resource_type),
    {
        village.get(resource_type)
    }

    /// `amount` of one resource and nothing of the others.
    pub fn single_resource(resource_type: TradeResourceType, amount: i32) -> (r: Resources)
        ensures
            r == single(resource_type, amount),
    {
        let mut r = Resources::zero();
        r.set(resource_type, amount);
        r
    }

    /// The status of an order of `quantity` with `quantity_filled` units filled.
    pub fn calculate_order_status(quantity: i32, quantity_filled: i32) -> (r: TradeOrderStatus)
        ensures
            r == status_for(quantity as int, quantity_filled as int),
    {
        if quantity_filled >= quantity {
            TradeOrderStatus::Filled
        } else if quantity_filled > 0 {
            TradeOrderStatus::PartiallyFilled
        } else {
            TradeOrderStatus::Open
        }
    }

    /// Places a sell order: after the common checks, the village must have at
    /// least `quantity` of the resource beyond what active locks (`locked`)
    /// hold. Returns the order and the lock that escrows its units. The
    /// village's amounts are not touched.
    pub fn create_sell_order(
        request: &CreateOrderRequest,
        user_id: u128,
        village_owner: u128,
        village: &VillageStock,
        locked: i64,
        open_orders: i64,
        order_id: u128,
        lock_id: u128,
        now: i64,
    ) -> (r: Result<(TradeOrder, ResourceLock), GameError>)
        requires
            request.order_type == TradeOrderType::Sell,
            village.wf(),
            0 <= locked,
            now <= MAX_INSTANT,
        ensures
            match create_error(*request, user_id, village_owner, open_orders as int) {
                Some(e) => r == Err::<(TradeOrder, ResourceLock), GameError>(e),
                None => if village.amount(request.resource_type) - locked < request.quantity {
                    r == Err::<(TradeOrder, ResourceLock), GameError>(GameError::InsufficientResources)
                } else {
                    r matches Ok((o, l)) && o == new_order(*request, order_id, user_id, now as int)
                        && l == new_sell_lock(o, lock_id) && o.wf() && escrow_ok(o, l)
                },
            },
    {
        Self::check_create(request, user_id, village_owner, open_orders)?;
        let available = village.get(request.resource_type) - locked;
        if available < request.quantity as i64 {
            return Err(GameError::InsufficientResources);
        }
        let order = Self::new_order_of(request, order_id, user_id, now);
        let lock = ResourceLock {
            id: lock_id,
            village_id: order.village_id,
            lock_type: LockType::TradeOrder,
            reference_id: order.id,
            amounts: Self::single_resource(request.resource_type, request.quantity),
            released: false,
        };
        Ok((order, lock))
    }

    /// Places a buy order: after the common checks, takes `quantity · price`
    /// gold from the buyer into escrow, only where the balance covers it.
    pub fn create_buy_order(
        request: &CreateOrderRequest,
        user_id: u128,
        village_owner: u128,
        account: &mut GoldAccount,
        open_orders: i64,
        order_id: u128,
        now: i64,
    ) -> (r: Result<TradeOrder, GameError>)
        requires
            request.order_type == TradeOrderType::Buy,
            old(account).wf(),
            old(account).user_id == user_id,
            now <= MAX_INSTANT,
        ensures
            final(account).wf(),
            final(account).user_id == user_id,
            match create_error(*request, user_id, village_owner, open_orders as int) {
                Some(e) => r == Err::<TradeOrder, GameError>(e) && final(account).same(old(account)),
                None => if old(account).gold_balance < request.quantity * request.price_per_unit {
                    r == Err::<TradeOrder, GameError>(GameError::InsufficientGold)
                        && final(account).same(old(account))
                } else {
                    r == Ok::<TradeOrder, GameError>(new_order(*request, order_id, user_id, now as int))
                        && final(account).gold_balance == old(account).gold_balance
                        - request.quantity * request.price_per_unit
                },
            },
            r matches Ok(o) ==> o.wf() && o.held_gold() == o.quantity * o.price_per_unit,
    {
        Self::check_create(request, user_id, village_owner, open_orders)?;
        proof {
            lemma_trade_gold_bound(request.quantity as int, request.price_per_unit as int);
        }
        let total_cost = request.quantity as i64 * request.price_per_unit as i64;
        if !account.debit(total_cost, LedgerKind::TradeEscrow) {
            return Err(GameError::InsufficientGold);
        }
        Ok(Self::new_order_of(request, order_id, user_id, now))
    }

    /// Checks a fill of `quantity` units (all that remain when none) by
    /// `user_id` at `now`, and returns the units it takes.
    pub fn validate_accept_order(order: &TradeOrder, user_id: u128, quantity: Option<i32>, now: i64) -> (r:
        Result<i32, GameError>)
        requires
            order.wf(),
        ensures
            r == fill_quantity(*order, user_id, quantity, now as int),
    {
        if !order.can_fill() {
            return Err(GameError::OrderNotFillable);
        }
        if order.is_expired(now) {
            return Err(GameError::OrderExpired);
        }
        if order.user_id == user_id {
            return Err(GameError::OwnOrder);
        }
        let remaining = order.quantity_remaining();
        let fill = match quantity {
            Some(q) => q,
            None => remaining,
        };
        if fill <= 0 {
            return Err(GameError::NonPositiveFill);
        }
        if fill > remaining {
            return Err(GameError::FillExceedsRemaining { remaining });
        }
        if fill < MIN_QUANTITY && fill != remaining {
            return Err(GameError::FillBelowMinimum);
        }
        Ok(fill)
    }

    /// Checks that `user_id` may cancel the order.
    pub fn validate_cancel_order(order: &TradeOrder, user_id: u128) -> (r: Result<(), GameError>)
        ensures
            r == match cancel_error(*order, user_id) {
                Some(e) => Err(e),
                None => Ok::<(), GameError>(()),
            },
    {
        if order.user_id != user_id {
            return Err(GameError::NotOwner);
        }
        if !order.can_cancel() {
            return Err(GameError::OrderNotCancellable);
        }
        Ok(())
    }

    /// Fills a sell order; the acceptor buys. The buyer pays `n · price` gold to
    /// the seller, the seller's village gives `n` units, the buyer's village
    /// receives them up to its storage, and the escrow lock shrinks by `n`,
    /// released once the order is filled. On an error nothing changes.
    pub fn accept_sell_order(
        order: &mut TradeOrder,
        user_id: u128,
        quantity: Option<i32>,
        acceptor_village_owner: u128,
        buyer: &mut GoldAccount,
        seller: &mut GoldAccount,
        buyer_village: &mut VillageStock,
        seller_village: &mut VillageStock,
        lock: &mut ResourceLock,
        now: i64,
    ) -> (r: Result<i32, GameError>)
        requires
            old(order).wf(),
            old(order).order_type == TradeOrderType::Sell,
            escrow_ok(*old(order), *old(lock)),
            old(buyer).wf(),
            old(seller).wf(),
            old(buyer).user_id == user_id,
            old(seller).user_id == old(order).user_id,
            old(seller).gold_balance <= i64::MAX - MAX_ORDER_GOLD,
            old(buyer_village).wf(),
            old(seller_village).wf(),
            is_live(old(order).status) ==> old(seller_village).amount(old(order).resource_type)
                >= old(order).remaining(),
        ensures
            r == sell_fill_outcome(
                *old(order),
                user_id,
                quantity,
                acceptor_village_owner,
                old(buyer).gold_balance as int,
                now as int,
            ),
            final(order).wf(),
            escrow_ok(*final(order), *final(lock)),
            final(buyer).wf(),
            final(seller).wf(),
            final(buyer_village).wf(),
            final(seller_village).wf(),
            final(buyer).gold_balance + final(seller).gold_balance == old(buyer).gold_balance
                + old(seller).gold_balance,
            match r {
                Ok(n) => {
                    &&& *final(order) == old(order).after_fill(n as int)
                    &&& final(buyer).gold_balance == old(buyer).gold_balance - n * old(order).price_per_unit
                    &&& final(seller).gold_balance == old(seller).gold_balance + n * old(order).price_per_unit
                    &&& *final(buyer_village) == old(buyer_village).deposit(old(order).resource_type, n as int)
                    &&& *final(seller_village) == old(seller_village).withdraw(old(order).resource_type, n as int)
                },
                Err(_) => {
                    &&& *final(order) == *old(order)
                    &&& final(buyer).same(old(buyer))
                    &&& final(seller).same(old(seller))
                    &&& *final(buyer_village) == *old(buyer_village)
                    &&& *final(seller_village) == *old(seller_village)
                    &&& *final(lock) == *old(lock)
                },
            },
    {
        let fill = Self::validate_accept_order(order, user_id, quantity, now)?;
        Self::validate_village_ownership(acceptor_village_owner, user_id)?;
        let t = order.resource_type;
        proof {
            lemma_trade_gold_bound(fill as int, order.price_per_unit as int);
        }
        let gold = fill as i64 * order.price_per_unit as i64;
        if !buyer.debit(gold, LedgerKind::TradePayment) {
            return Err(GameError::InsufficientGold);
        }
        seller.credit(gold, LedgerKind::TradeProceeds);
        buyer_village.add_capped(t, fill as i64);
        seller_village.take(t, fill as i64);
        let filled = order.quantity_filled + fill;
        order.quantity_filled = filled;
        order.status = Self::calculate_order_status(order.quantity, filled);
        lock.amounts.set(t, order.quantity - filled);
        if order.status == TradeOrderStatus::Filled {
            lock.released = true;
        }
        Ok(fill)
    }

    /// Fills a buy order; the acceptor sells. The seller's village must hold
    /// `n` units beyond its active locks (`seller_locked`); it gives them, the
    /// buyer's village receives them up to its storage, and the seller is paid
    /// `n · price` out of the gold escrowed when the order was placed. On an
    /// error nothing changes.
    pub fn accept_buy_order(
        order: &mut TradeOrder,
        user_id: u128,
        quantity: Option<i32>,
        acceptor_village_owner: u128,
        seller: &mut GoldAccount,
        seller_village: &mut VillageStock,
        seller_locked: i64,
        buyer_village: &mut VillageStock,
        now: i64,
    ) -> (r: Result<i32, GameError>)
        requires
            old(order).wf(),
            old(order).order_type == TradeOrderType::Buy,
            old(seller).wf(),
            old(seller).user_id == user_id,
            old(seller).gold_balance <= i64::MAX - MAX_ORDER_GOLD,
            old(seller_village).wf(),
            old(buyer_village).wf(),
            0 <= seller_locked,
        ensures
            r == buy_fill_outcome(
                *old(order),
                user_id,
                quantity,
                acceptor_village_owner,
                old(seller_village).amount(old(order).resource_type) - seller_locked,
                now as int,
            ),
            final(order).wf(),
            final(seller).wf(),
            final(seller_village).wf(),
            final(buyer_village).wf(),
            final(seller).gold_balance + final(order).held_gold() == old(seller).gold_balance
                + old(order).held_gold(),
            match r {
                Ok(n) => {
                    &&& *final(order) == old(order).after_fill(n as int)
                    &&& final(seller).gold_balance == old(seller).gold_balance + n * old(order).price_per_unit
                    &&& *final(seller_village) == old(seller_village).withdraw(old(order).resource_type, n as int)
                    &&& *final(buyer_village) == old(buyer_village).deposit(old(order).resource_type, n as int)
                },
                Err(_) => {
                    &&& *final(order) == *old(order)
                    &&& final(seller).same(old(seller))
                    &&& *final(seller_village) == *old(seller_village)
                    &&& *final(buyer_village) == *old(buyer_village)
                },
            },
    {
        let fill = Self::validate_accept_order(order, user_id, quantity, now)?;
        Self::validate_village_ownership(acceptor_village_owner, user_id)?;
        let t = order.resource_type;
        let available = seller_village.get(t) - seller_locked;
        if available < fill as i64 {
            return Err(GameError::InsufficientResources);
        }
        proof {
            lemma_trade_gold_bound(fill as int, order.price_per_unit as int);
            let p = order.price_per_unit as int;
            let rem = order.remaining();
            assert(rem * p == (rem - fill) * p + fill * p) by (nonlinear_arith);
        }
        let gold = fill as i64 * order.price_per_unit as i64;
        seller_village.take(t, fill as i64);
        buyer_village.add_capped(t, fill as i64);
        seller.credit(gold, LedgerKind::TradeProceeds);
        let filled = order.quantity_filled + fill;
        order.quantity_filled = filled;
        order.status = Self::calculate_order_status(order.quantity, filled);
        Ok(fill)
    }

    fn release_escrow(order: &mut TradeOrder, lock: &mut ResourceLock, status: TradeOrderStatus) -> (r: Resources)
        requires
            old(order).wf(),
            is_live(old(order).status),
            escrow_ok(*old(order), *old(lock)),
            status == TradeOrderStatus::Cancelled || status == TradeOrderStatus::Expired,
        ensures
            r == old(lock).amounts,
            *final(order) == (TradeOrder { status, ..*old(order) }),
            *final(lock) == (ResourceLock { released: true, ..*old(lock) }),
            final(order).wf(),
            escrow_ok(*final(order), *final(lock)),
    {
        order.status = status;
        lock.released = true;
        lock.to_resources()
    }

    fn refund_escrow(order: &mut TradeOrder, owner: &mut GoldAccount, status: TradeOrderStatus) -> (r: i64)
        requires
            old(order).wf(),
            is_live(old(order).status),
            old(order).order_type == TradeOrderType::Buy,
            old(owner).wf(),
            old(owner).gold_balance <= i64::MAX - MAX_ORDER_GOLD,
            status == TradeOrderStatus::Cancelled || status == TradeOrderStatus::Expired,
        ensures
            r == old(order).remaining() * old(order).price_per_unit,
            *final(order) == (TradeOrder { status, ..*old(order) }),
            final(order).wf(),
            final(owner).wf(),
            final(owner).user_id == old(owner).user_id,
            final(owner).gold_balance == old(owner).gold_balance + r,
            final(owner).gold_balance + final(order).held_gold() == old(owner).gold_balance
                + old(order).held_gold(),
    {
        let refund = order.remaining_cost();
        owner.credit(refund, LedgerKind::TradeRefund);
        order.status = status;
        refund
    }

    /// Cancels a live sell order of `user_id` and releases its lock, which
    /// gives the still-reserved units back to the village; returns what the
    /// lock held. On an error nothing changes.
    pub fn cancel_sell_order(order: &mut TradeOrder, user_id: u128, lock: &mut ResourceLock) -> (r: Result<
        Resources,
        GameError,
    >)
        requires
            old(order).wf(),
            old(order).order_type == TradeOrderType::Sell,
            escrow_ok(*old(order), *old(lock)),
        ensures
            final(order).wf(),
            escrow_ok(*final(order), *final(lock)),
            match cancel_error(*old(order), user_id) {
                Some(e) => r == Err::<Resources, GameError>(e) && *final(order) == *old(order)
                    && *final(lock) == *old(lock),
                None => r == Ok::<Resources, GameError>(old(lock).amounts)
                    && *final(order) == (TradeOrder { status: TradeOrderStatus::Cancelled, ..*old(order) })
                    && *final(lock) == (ResourceLock { released: true, ..*old(lock) }),
            },
    {
        Self::validate_cancel_order(order, user_id)?;
        Ok(Self::release_escrow(order, lock, TradeOrderStatus::Cancelled))
    }

    /// Cancels a live buy order of `user_id` and refunds the gold escrowed for
    /// its unfilled units; returns the refund. On an error nothing changes.
    pub fn cancel_buy_order(order: &mut TradeOrder, user_id: u128, owner: &mut GoldAccount) -> (r: Result<
        i64,
        GameError,
    >)
        requires
            old(order).wf(),
            old(order).order_type == TradeOrderType::Buy,
            old(owner).wf(),
            old(owner).user_id == old(order).user_id,
            old(owner).gold_balance <= i64::MAX - MAX_ORDER_GOLD,
        ensures
            final(order).wf(),
            final(owner).wf(),
            final(owner).gold_balance + final(order).held_gold() == old(owner).gold_balance
                + old(order).held_gold(),
            match cancel_error(*old(order), user_id) {
                Some(e) => r == Err::<i64, GameError>(e) && *final(order) == *old(order)
                    && final(owner).same(old(owner)),
                None => r == Ok::<i64, GameError>(
                    (old(order).remaining() * old(order).price_per_unit) as i64,
                ) && *final(order) == (TradeOrder { status: TradeOrderStatus::Cancelled, ..*old(order) })
                    && final(owner).gold_balance == old(owner).gold_balance + old(order).remaining()
                    * old(order).price_per_unit,
            },
    {
        Self::validate_cancel_order(order, user_id)?;
        Ok(Self::refund_escrow(order, owner, TradeOrderStatus::Cancelled))
    }

    /// Checks that the order is live and its expiry is at or before `now`.
    pub fn validate_expiry(order: &TradeOrder, now: i64) -> (r: Result<(), GameError>)
        ensures
            r == as_result(expire_error(*order, now as int)),
    {
        if !order.can_cancel() {
            return Err(GameError::OrderNotCancellable);
        }
        match order.expires_at {
            Some(e) => if e <= now {
                Ok(())
            } else {
                Err(GameError::NotYetExpired)
            },
            None => Err(GameError::NotYetExpired),
        }
    }

    /// Expires a sell order whose expiry has come: as a cancel, with the
    /// status `Expired`.
    pub fn expire_sell_order(order: &mut TradeOrder, lock: &mut ResourceLock, now: i64) -> (r: Result<
        Resources,
        GameError,
    >)
        requires
            old(order).wf(),
            old(order).order_type == TradeOrderType::Sell,
            escrow_ok(*old(order), *old(lock)),
        ensures
            final(order).wf(),
            escrow_ok(*final(order), *final(lock)),
            match expire_error(*old(order), now as int) {
                Some(e) => r == Err::<Resources, GameError>(e) && *final(order) == *old(order)
                    && *final(lock) == *old(lock),
                None => r == Ok::<Resources, GameError>(old(lock).amounts)
                    && *final(order) == (TradeOrder { status: TradeOrderStatus::Expired, ..*old(order) })
                    && *final(lock) == (ResourceLock { released: true, ..*old(lock) }),
            },
    {
        Self::validate_expiry(order, now)?;
        Ok(Self::release_escrow(order, lock, TradeOrderStatus::Expired))
    }

    /// Expires a buy order whose expiry has come: as a cancel, with the status
    /// `Expired`.
    pub fn expire_buy_order(order: &mut TradeOrder, owner: &mut GoldAccount, now: i64) -> (r: Result<
        i64,
        GameError,
    >)
        requires
            old(order).wf(),
            old(order).order_type == TradeOrderType::Buy,
            old(owner).wf(),
            old(owner).user_id == old(order).user_id,
            old(owner).gold_balance <= i64::MAX - MAX_ORDER_GOLD,
        ensures
            final(order).wf(),
            final(owner).wf(),
            final(owner).gold_balance + final(order).held_gold() == old(owner).gold_balance
                + old(order).held_gold(),
            match expire_error(*old(order), now as int) {
                Some(e) => r == Err::<i64, GameError>(e) && *final(order) == *old(order)
                    && final(owner).same(old(owner)),
                None => r == Ok::<i64, GameError>(
                    (old(order).remaining() * old(order).price_per_unit) as i64,
                ) && *final(order) == (TradeOrder { status: TradeOrderStatus::Expired, ..*old(order) })
                    && final(owner).gold_balance == old(owner).gold_balance + old(order).remaining()
                    * old(order).price_per_unit,
            },
    {
        Self::validate_expiry(order, now)?;
        Ok(Self::refund_escrow(order, owner, TradeOrderStatus::Expired))
    }
}

} // verus!
