//! In-memory tables of orders, escrow locks and buildings, with the queries
//! that the periodic jobs and the market run against them.
use vstd::prelude::*;
use crate::building::Building;
use crate::market::{LockType, ResourceLock, TradeOrder, is_live};

verus! {

/// Most orders that one expiry tick handles.
pub const EXPIRY_BATCH: usize = 100;

/// Whether order `o` has expired by `now` while still live.
pub open spec fn is_due(o: TradeOrder, now: int) -> bool {
    is_live(o.status) && (o.expires_at matches Some(e) && e <= now)
}

/// The indices of the live orders among `os` whose expiry is at or before `now`, in order.
pub open spec fn due_orders(os: Seq<TradeOrder>, now: int) -> Seq<int>
    decreases os.len(),
{
    if os.len() == 0 {
        seq![]
    } else {
        let rest = due_orders(os.drop_last(), now);
        if is_due(os.last(), now) {
            rest.push(os.len() - 1)
        } else {
            rest
        }
    }
}

/// Number of live orders of `user` among `os`.
pub open spec fn open_count(os: Seq<TradeOrder>, user: u128) -> int
    decreases os.len(),
{
    if os.len() == 0 {
        0
    } else {
        open_count(os.drop_last(), user) + if os.last().user_id == user && is_live(os.last().status) {
            1int
        } else {
            0
        }
    }
}

/// Whether building `b` has an upgrade in flight that has ended by `now`.
pub open spec fn upgrade_done(b: Building, now: int) -> bool {
    b.is_upgrading && (b.upgrade_ends_at matches Some(e) && e <= now)
}

/// The indices of the buildings whose upgrade has ended by `now`, in order.
pub open spec fn done_upgrades(bs: Seq<Building>, now: int) -> Seq<int>
    decreases bs.len(),
{
    if bs.len() == 0 {
        seq![]
    } else {
        let rest = done_upgrades(bs.drop_last(), now);
        if upgrade_done(bs.last(), now) {
            rest.push(bs.len() - 1)
        } else {
            rest
        }
    }
}

/// The orders and escrow locks of the market.
pub struct TradeRepository {
    pub orders: Vec<TradeOrder>,
    pub locks: Vec<ResourceLock>,
}

impl TradeRepository {
    /// Empty tables.
    pub fn new() -> (r: Self)
        ensures
            r.orders@.len() == 0,
            r.locks@.len() == 0,
    {
        TradeRepository { orders: Vec::new(), locks: Vec::new() }
    }

    /// The number of live orders of `user`.
    pub fn count_user_open_orders(&self, user: u128) -> (r: i64)
        requires
            self.orders@.len() <= i64::MAX,
        ensures
            r == open_count(self.orders@, user),
    {
        let mut n: i64 = 0;
        let mut i: usize = 0;
        while i < self.orders.len()
            invariant
                i <= self.orders@.len() <= i64::MAX,
                n == open_count(self.orders@.take(i as int), user),
                0 <= n <= i,
            decreases self.orders@.len() - i,
        {
            let o = self.orders[i];
            proof {
                assert(self.orders@.take(i + 1).drop_last() =~= self.orders@.take(i as int));
                assert(self.orders@.take(i + 1).last() == o);
            }
            let live = match o.status {
                crate::market::TradeOrderStatus::Open | crate::market::TradeOrderStatus::PartiallyFilled => true,
                _ => false,
            };
            if o.user_id == user && live {
                n = n + 1;
            }
            i = i + 1;
        }
        proof {
            assert(self.orders@.take(self.orders@.len() as int) =~= self.orders@);
        }
        n
    }

    /// The indices of at most `EXPIRY_BATCH` live orders whose expiry is at
    /// or before `now`, the first ones in table order.
    pub fn get_expired_orders(&self, now: i64) -> (r: Vec<usize>)
        ensures
            r@.map_values(|i: usize| i as int) == due_orders(self.orders@, now as int).take(
                if due_orders(self.orders@, now as int).len() < EXPIRY_BATCH {
                    due_orders(self.orders@, now as int).len() as int
                } else {
                    EXPIRY_BATCH as int
                },
            ),
    {
        let mut r: Vec<usize> = Vec::new();
        let mut i: usize = 0;
        while i < self.orders.len() && r.len() < EXPIRY_BATCH
            invariant
                i <= self.orders@.len(),
                r@.len() <= EXPIRY_BATCH,
                r@.map_values(|k: usize| k as int) == due_orders(self.orders@.take(i as int), now as int),
            decreases self.orders@.len() - i,
        {
            let o = self.orders[i];
            proof {
                assert(self.orders@.take(i + 1).drop_last() =~= self.orders@.take(i as int));
                assert(self.orders@.take(i + 1).last() == o);
            }
            let live = match o.status {
                crate::market::TradeOrderStatus::Open | crate::market::TradeOrderStatus::PartiallyFilled => true,
                _ => false,
            };
            let expired = match o.expires_at {
                Some(e) => e <= now,
                None => false,
            };
            if live && expired {
                r.push(i);
                proof {
                    assert(r@.map_values(|k: usize| k as int) =~= due_orders(self.orders@.take(i as int), now as int).push(i as int));
                }
            }
            i = i + 1;
        }
        proof {
            lemma_due_prefix(self.orders@, i as int, now as int);
            let full = due_orders(self.orders@, now as int);
            let part = due_orders(self.orders@.take(i as int), now as int);
            if i == self.orders@.len() {
                assert(self.orders@.take(i as int) =~= self.orders@);
            }
            assert(r@.map_values(|k: usize| k as int) =~= full.take(
                if full.len() < EXPIRY_BATCH { full.len() as int } else { EXPIRY_BATCH as int },
            ));
        }
        r
    }

    /// The index of the order with id `id`, if any.
    pub fn find_order(&self, id: u128) -> (r: Option<usize>)
        ensures
            match r {
                Some(i) => i < self.orders@.len() && self.orders@[i as int].id == id,
                None => forall|k: int| 0 <= k < self.orders@.len() ==> #[trigger] self.orders@[k].id != id,
            },
    {
        let mut i: usize = 0;
        while i < self.orders.len()
            invariant
                i <= self.orders@.len(),
                forall|k: int| 0 <= k < i ==> #[trigger] self.orders@[k].id != id,
            decreases self.orders@.len() - i,
        {
            if self.orders[i].id == id {
                return Some(i);
            }
            i = i + 1;
        }
        None
    }

    /// The index of the active escrow lock of order `order_id`, if any.
    pub fn find_order_lock(&self, order_id: u128) -> (r: Option<usize>)
        ensures
            match r {
                Some(i) => i < self.locks@.len() && self.locks@[i as int].reference_id == order_id
                    && self.locks@[i as int].lock_type == LockType::TradeOrder && !self.locks@[i as int].released,
                None => forall|k: int| 0 <= k < self.locks@.len() ==> !(#[trigger] self.locks@[k].reference_id == order_id
                    && self.locks@[k].lock_type == LockType::TradeOrder && !self.locks@[k].released),
            },
    {
        let mut i: usize = 0;
        while i < self.locks.len()
            invariant
                i <= self.locks@.len(),
                forall|k: int| 0 <= k < i ==> !(#[trigger] self.locks@[k].reference_id == order_id
                    && self.locks@[k].lock_type == LockType::TradeOrder && !self.locks@[k].released),
            decreases self.locks@.len() - i,
        {
            let l = self.locks[i];
            if l.reference_id == order_id && l.lock_type == LockType::TradeOrder && !l.released {
                return Some(i);
            }
            i = i + 1;
        }
        None
    }
}

/// The due orders of a prefix are a prefix of the due orders of the whole table.
proof fn lemma_due_prefix(os: Seq<TradeOrder>, i: int, now: int)
    requires
        0 <= i <= os.len(),
    ensures
        due_orders(os.take(i), now).len() <= due_orders(os, now).len(),
        due_orders(os.take(i), now) == due_orders(os, now).take(due_orders(os.take(i), now).len() as int),
    decreases os.len() - i,
{
    if i < os.len() {
        lemma_due_prefix(os, i + 1, now);
        assert(os.take(i + 1).drop_last() =~= os.take(i));
        let a = due_orders(os.take(i), now);
        let b = due_orders(os.take(i + 1), now);
        let f = due_orders(os, now);
        if is_due(os.take(i + 1).last(), now) {
            assert(b == a.push(i));
            assert(a =~= f.take(b.len() as int).take(a.len() as int));
        } else {
            assert(b == a);
        }
    } else {
        assert(os.take(i) =~= os);
        assert(due_orders(os, now).take(due_orders(os, now).len() as int) =~= due_orders(os, now));
    }
}

/// The buildings of the world, as the completion job sees them.
pub struct BuildingRepository {
    pub buildings: Vec<Building>,
}

impl BuildingRepository {
    /// The indices of the buildings whose upgrade has ended by `now`.
    pub fn find_completed_upgrades(&self, now: i64) -> (r: Vec<usize>)
        ensures
            r@.map_values(|i: usize| i as int) == done_upgrades(self.buildings@, now as int),
    {
        let mut r: Vec<usize> = Vec::new();
        let mut i: usize = 0;
        while i < self.buildings.len()
            invariant
                i <= self.buildings@.len(),
                r@.map_values(|k: usize| k as int) == done_upgrades(self.buildings@.take(i as int), now as int),
            decreases self.buildings@.len() - i,
        {
            let b = self.buildings[i];
            proof {
                assert(self.buildings@.take(i + 1).drop_last() =~= self.buildings@.take(i as int));
                assert(self.buildings@.take(i + 1).last() == b);
            }
            let done = b.is_upgrading && match b.upgrade_ends_at {
                Some(e) => e <= now,
                None => false,
            };
            if done {
                r.push(i);
                proof {
                    assert(r@.map_values(|k: usize| k as int) =~= done_upgrades(self.buildings@.take(i as int), now as int).push(i as int));
                }
            }
            i = i + 1;
        }
        proof {
            assert(self.buildings@.take(self.buildings@.len() as int) =~= self.buildings@);
        }
        r
    }
}

} // verus!
