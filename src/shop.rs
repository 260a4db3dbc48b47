//! The gold shop: features bought with gold, production boosts, the plus
//! subscription, and crediting gold once a payment is captured.
use vstd::prelude::*;
use crate::building::Building;
use crate::construction::BuildingService;
use crate::error::GameError;
use crate::gold::{GoldAccount, LedgerKind};
use crate::production::{MAX_INSTANT, ProductionBonuses, VillageStock};
use crate::resources::{Resources, TradeResourceType};
use crate::troops::{GarrisonEntry, TrainingEntry, TroopDefinition, TroopService, garrison_present, garrison_wf, queue_wf};

verus! {

/// Seconds of remaining time that one gold buys with finish-now.
pub const FINISH_NOW_SECONDS_PER_GOLD: i64 = 300;

/// Gold cost of one NPC merchant exchange.
pub const NPC_MERCHANT_COST: i64 = 3;

/// Gold cost of a +25% production bonus.
pub const PRODUCTION_BONUS_COST: i64 = 5;

/// Gold cost of the book of wisdom.
pub const BOOK_OF_WISDOM_COST: i64 = 15;

/// How long a production bonus or the book of wisdom lasts, in milliseconds.
pub const BOOST_DURATION_MS: i64 = 86_400_000;

/// Milliseconds in a day.
pub const DAY_MS: i64 = 86_400_000;

/// Longest subscription that can be bought at once, in days.
pub const MAX_SUBSCRIPTION_DAYS: i32 = 3650;

/// The kinds of time-limited boost.
#[derive(Debug, Clone, Copy, PartialEq, Eq, Structural)]
pub enum BonusKind {
    /// The plus subscription of a user: +25% on every resource in all their villages.
    Plus,
    /// +25% on one resource in one village.
    Production(TradeResourceType),
    /// +100% on every resource in one village.
    BookOfWisdom,
}

/// A boost, active until `expires_at` (milliseconds since the epoch).
#[derive(Debug, Clone, Copy, PartialEq, Eq, Structural)]
pub struct BonusEntry {
    pub user_id: u128,
    /// The village it applies to; unused for the plus subscription.
    pub village_id: u128,
    pub kind: BonusKind,
    pub expires_at: i64,
}

/// A price of the plus subscription.
#[derive(Debug, Clone, Copy, PartialEq, Eq, Structural)]
pub struct SubscriptionPrice {
    pub duration_days: i32,
    pub gold_cost: i64,
}

/// A gold package on sale.
#[derive(Debug, Clone, Copy, PartialEq, Eq, Structural)]
pub struct GoldPackage {
    pub gold_amount: i32,
    pub bonus_percent: i32,
    pub price_cents: i32,
    pub is_active: bool,
}

#[derive(Debug, Clone, Copy, PartialEq, Eq, Structural)]
pub enum TransactionStatus {
    Pending,
    Completed,
    Failed,
}

/// A purchase of gold through the payment provider.
#[derive(Debug, Clone, Copy, PartialEq, Eq, Structural)]
pub struct ShopTransaction {
    pub id: u128,
    pub user_id: u128,
    pub gold_amount: i64,
    pub status: TransactionStatus,
}

/// Whether `e` is an active boost of kind `k` for user `u` (and, but for
/// plus, village `v`) at `now`.
pub open spec fn boost_matches(e: BonusEntry, u: u128, v: u128, k: BonusKind, now: int) -> bool {
    &&& e.user_id == u
    &&& e.kind == k
    &&& e.expires_at > now
    &&& (k == BonusKind::Plus || e.village_id == v)
}

/// Some entry is an active boost of kind `k` for `u` and `v` at `now`.
pub open spec fn has_active(es: Seq<BonusEntry>, u: u128, v: u128, k: BonusKind, now: int) -> bool {
    exists|i: int| 0 <= i < es.len() && boost_matches(#[trigger] es[i], u, v, k, now)
}

/// The boosts of village `v` of user `u` at `now`, from the non-expired entries.
pub open spec fn spec_active_bonuses(es: Seq<BonusEntry>, u: u128, v: u128, now: int) -> ProductionBonuses {
    ProductionBonuses {
        plus_active: has_active(es, u, v, BonusKind::Plus, now),
        wood_bonus: has_active(es, u, v, BonusKind::Production(TradeResourceType::Wood), now),
        clay_bonus: has_active(es, u, v, BonusKind::Production(TradeResourceType::Clay), now),
        iron_bonus: has_active(es, u, v, BonusKind::Production(TradeResourceType::Iron), now),
        crop_bonus: has_active(es, u, v, BonusKind::Production(TradeResourceType::Crop), now),
        book_of_wisdom: has_active(es, u, v, BonusKind::BookOfWisdom, now),
    }
}

/// Whole seconds from `now` to `ends_at`, both in milliseconds; zero once passed.
pub open spec fn remaining_seconds(ends_at: int, now: int) -> int {
    if ends_at > now {
        (ends_at - now) / 1000
    } else {
        0
    }
}

/// Finish-now price: one gold per started five minutes, at least one.
pub open spec fn finish_now_price(remaining: int) -> int {
    let g = (remaining + FINISH_NOW_SECONDS_PER_GOLD - 1) / (FINISH_NOW_SECONDS_PER_GOLD as int);
    if g < 1 {
        1
    } else {
        g
    }
}

/// Why an NPC merchant reallocation to `target` is refused, if it is: a
/// changed total, then a negative amount, then an amount above storage.
pub open spec fn reallocation_error(s: VillageStock, target: Resources) -> Option<GameError> {
    if target.sum() != s.wood + s.clay + s.iron + s.crop {
        Some(GameError::TotalChanged)
    } else if target.wood < 0 || target.clay < 0 || target.iron < 0 || target.crop < 0 {
        Some(GameError::NegativeAmount)
    } else if target.wood > s.warehouse_capacity || target.clay > s.warehouse_capacity || target.iron
        > s.warehouse_capacity || target.crop > s.granary_capacity {
        Some(GameError::ExceedsCapacity)
    } else {
        None
    }
}

/// The price of a subscription of `days` days, if one is on sale.
pub open spec fn price_for(prices: Seq<SubscriptionPrice>, days: int) -> Option<int>
    decreases prices.len(),
{
    if prices.len() == 0 {
        None
    } else if prices[0].duration_days == days {
        Some(prices[0].gold_cost as int)
    } else {
        price_for(prices.drop_first(), days)
    }
}

/// The index of the first plus entry of user `u`, if any.
pub open spec fn first_plus(es: Seq<BonusEntry>, u: u128) -> Option<int>
    decreases es.len(),
{
    if es.len() == 0 {
        None
    } else if es[0].user_id == u && es[0].kind == BonusKind::Plus {
        Some(0)
    } else {
        match first_plus(es.drop_first(), u) {
            Some(i) => Some(i + 1),
            None => None,
        }
    }
}

/// The gold a package credits: its amount plus its bonus percentage, rounded down.
pub open spec fn package_gold(p: GoldPackage) -> int {
    p.gold_amount + p.gold_amount * p.bonus_percent / 100
}

/// The gold shop's operations.
pub struct ShopService;

impl ShopService {
    /// The boosts of village `village_id` of user `user_id` at `now`.
    pub fn active_bonuses(entries: &Vec<BonusEntry>, user_id: u128, village_id: u128, now: i64) -> (r:
        ProductionBonuses)
        ensures
            r == spec_active_bonuses(entries@, user_id, village_id, now as int),
    {
        let mut r = ProductionBonuses::none();
        let mut i: usize = 0;
        while i < entries.len()
            invariant
                i <= entries@.len(),
                r.plus_active == exists|j: int| 0 <= j < i && boost_matches(#[trigger] entries@[j], user_id, village_id, BonusKind::Plus, now as int),
                r.wood_bonus == exists|j: int| 0 <= j < i && boost_matches(#[trigger] entries@[j], user_id, village_id, BonusKind::Production(TradeResourceType::Wood), now as int),
                r.clay_bonus == exists|j: int| 0 <= j < i && boost_matches(#[trigger] entries@[j], user_id, village_id, BonusKind::Production(TradeResourceType::Clay), now as int),
                r.iron_bonus == exists|j: int| 0 <= j < i && boost_matches(#[trigger] entries@[j], user_id, village_id, BonusKind::Production(TradeResourceType::Iron), now as int),
                r.crop_bonus == exists|j: int| 0 <= j < i && boost_matches(#[trigger] entries@[j], user_id, village_id, BonusKind::Production(TradeResourceType::Crop), now as int),
                r.book_of_wisdom == exists|j: int| 0 <= j < i && boost_matches(#[trigger] entries@[j], user_id, village_id, BonusKind::BookOfWisdom, now as int),
            decreases entries@.len() - i,
        {
            let e = entries[i];
            if e.user_id == user_id && e.expires_at > now {
                match e.kind {
                    BonusKind::Plus => r.plus_active = true,
                    BonusKind::Production(t) => if e.village_id == village_id {
                        match t {
                            TradeResourceType::Wood => r.wood_bonus = true,
                            TradeResourceType::Clay => r.clay_bonus = true,
                            TradeResourceType::Iron => r.iron_bonus = true,
                            TradeResourceType::Crop => r.crop_bonus = true,
                        }
                    },
                    BonusKind::BookOfWisdom => if e.village_id == village_id {
                        r.book_of_wisdom = true;
                    },
                }
            }
            i = i + 1;
        }
        r
    }

    fn has_active_boost(entries: &Vec<BonusEntry>, user_id: u128, village_id: u128, kind: BonusKind, now: i64) -> (r: bool)
        ensures
            r == has_active(entries@, user_id, village_id, kind, now as int),
    {
        let mut i: usize = 0;
        while i < entries.len()
            invariant
                i <= entries@.len(),
                forall|j: int| 0 <= j < i ==> !boost_matches(#[trigger] entries@[j], user_id, village_id, kind, now as int),
            decreases entries@.len() - i,
        {
            let e = entries[i];
            if e.user_id == user_id && e.kind == kind && e.expires_at > now && (kind == BonusKind::Plus
                || e.village_id == village_id) {
                return true;
            }
            i = i + 1;
        }
        false
    }

    /// The finish-now price for an upgrade or batch ending at `ends_at`.
    pub fn finish_now_cost(ends_at: i64, now: i64) -> (r: i64)
        ensures
            r == finish_now_price(remaining_seconds(ends_at as int, now as int)),
            r >= 1,
    {
        let remaining: i64 = if ends_at > now {
            ((ends_at as i128 - now as i128) / 1000) as i64
        } else {
            0
        };
        let g = (remaining as i128 + 299) / 300;
        if g < 1 {
            1
        } else {
            g as i64
        }
    }

    /// Finish-now on an upgrading building of `user_id`: charges the price
    /// for the remaining time, then completes the upgrade. Returns the price.
    pub fn use_finish_now(
        building: &mut Building,
        village_owner: u128,
        user_id: u128,
        account: &mut GoldAccount,
        now: i64,
    ) -> (r: Result<i64, GameError>)
        requires
            old(building).wf(),
            old(account).wf(),
        ensures
            final(account).wf(),
            final(building).wf(),
            !old(building).is_upgrading ==> r == Err::<i64, GameError>(GameError::NotUpgrading),
            old(building).is_upgrading && village_owner != user_id ==> r == Err::<i64, GameError>(
                GameError::NotOwner,
            ),
            (r is Ok) == (old(building).is_upgrading && village_owner == user_id
                && old(account).gold_balance >= finish_now_price(
                remaining_seconds(old(building).upgrade_ends_at.unwrap() as int, now as int),
            )),
            match r {
                Ok(cost) => {
                    &&& old(building).is_upgrading
                    &&& village_owner == user_id
                    &&& cost == finish_now_price(
                        remaining_seconds(old(building).upgrade_ends_at.unwrap() as int, now as int),
                    )
                    &&& final(account).gold_balance == old(account).gold_balance - cost
                    &&& final(building).level == old(building).level + 1
                    &&& !final(building).is_upgrading
                },
                Err(e) => {
                    &&& final(account).same(old(account))
                    &&& *final(building) == *old(building)
                    &&& (e == GameError::InsufficientGold <==> (old(building).is_upgrading && village_owner
                        == user_id && old(account).gold_balance < finish_now_price(
                        remaining_seconds(old(building).upgrade_ends_at.unwrap() as int, now as int),
                    )))
                },
            },
    {
        if !building.is_upgrading {
            return Err(GameError::NotUpgrading);
        }
        if village_owner != user_id {
            return Err(GameError::NotOwner);
        }
        let ends = match building.upgrade_ends_at {
            Some(e) => e,
            None => now,
        };
        let cost = Self::finish_now_cost(ends, now);
        if !account.debit(cost, LedgerKind::GoldSpend) {
            return Err(GameError::InsufficientGold);
        }
        BuildingService::complete_upgrade(building);
        Ok(cost)
    }

    /// Finish-now on a queued training batch of `user_id`: charges the price
    /// for the time until the batch ends, then materializes it at once.
    /// Returns the price.
    pub fn use_finish_now_training(
        queue: &mut Vec<TrainingEntry>,
        index: usize,
        garrison: &mut Vec<GarrisonEntry>,
        definition: &TroopDefinition,
        village_owner: u128,
        user_id: u128,
        account: &mut GoldAccount,
        now: i64,
    ) -> (r: Result<i64, GameError>)
        requires
            queue_wf(old(queue)@),
            index < old(queue)@.len(),
            old(queue)@[index as int].troop_type == definition.troop_type,
            definition.wf(),
            garrison_wf(old(garrison)@),
            forall|i: int| 0 <= i < old(garrison)@.len() ==> #[trigger] old(garrison)@[i].count
                <= i64::MAX - i32::MAX && old(garrison)@[i].in_village <= i64::MAX - i32::MAX,
            old(account).wf(),
        ensures
            queue_wf(final(queue)@),
            garrison_wf(final(garrison)@),
            final(account).wf(),
            r == if village_owner != user_id {
                Err(GameError::NotOwner)
            } else if old(account).gold_balance < finish_now_price(
                remaining_seconds(old(queue)@[index as int].ends_at as int, now as int),
            ) {
                Err(GameError::InsufficientGold)
            } else {
                Ok(finish_now_price(remaining_seconds(old(queue)@[index as int].ends_at as int, now as int)) as i64)
            },
            r matches Ok(cost) ==> final(account).gold_balance == old(account).gold_balance - cost
                && final(queue)@ == old(queue)@.remove(index as int) && garrison_present(
                final(garrison)@,
                definition.troop_type,
            ) == garrison_present(old(garrison)@, definition.troop_type) + old(queue)@[index as int].count,
            r is Err ==> final(account).same(old(account)) && final(queue)@ == old(queue)@
                && final(garrison)@ == old(garrison)@,
    {
        if village_owner != user_id {
            return Err(GameError::NotOwner);
        }
        let cost = Self::finish_now_cost(queue[index].ends_at, now);
        if !account.debit(cost, LedgerKind::GoldSpend) {
            return Err(GameError::InsufficientGold);
        }
        TroopService::finish_batch(queue, index, garrison, definition);
        Ok(cost)
    }

    /// NPC merchant: for three gold, replaces the village's four amounts by
    /// `target`, which must keep their total, be non-negative and fit storage.
    pub fn use_npc_merchant(
        stock: &mut VillageStock,
        village_owner: u128,
        user_id: u128,
        account: &mut GoldAccount,
        target: &Resources,
    ) -> (r: Result<(), GameError>)
        requires
            old(stock).wf(),
            old(account).wf(),
        ensures
            final(stock).wf(),
            final(account).wf(),
            r == if village_owner != user_id {
                Err(GameError::NotOwner)
            } else {
                match reallocation_error(*old(stock), *target) {
                    Some(e) => Err(e),
                    None => if old(account).gold_balance < NPC_MERCHANT_COST {
                        Err(GameError::InsufficientGold)
                    } else {
                        Ok::<(), GameError>(())
                    },
                }
            },
            r is Ok ==> final(account).gold_balance == old(account).gold_balance - NPC_MERCHANT_COST
                && *final(stock) == (VillageStock {
                wood: target.wood as i64,
                clay: target.clay as i64,
                iron: target.iron as i64,
                crop: target.crop as i64,
                ..*old(stock)
            }),
            r is Err ==> final(account).same(old(account)) && *final(stock) == *old(stock),
    {
        if village_owner != user_id {
            return Err(GameError::NotOwner);
        }
        let current = stock.wood + stock.clay + stock.iron + stock.crop;
        let total = target.wood as i64 + target.clay as i64 + target.iron as i64 + target.crop as i64;
        if total != current {
            return Err(GameError::TotalChanged);
        }
        if target.wood < 0 || target.clay < 0 || target.iron < 0 || target.crop < 0 {
            return Err(GameError::NegativeAmount);
        }
        if target.wood as i64 > stock.warehouse_capacity || target.clay as i64 > stock.warehouse_capacity
            || target.iron as i64 > stock.warehouse_capacity || target.crop as i64 > stock.granary_capacity {
            return Err(GameError::ExceedsCapacity);
        }
        if !account.debit(NPC_MERCHANT_COST, LedgerKind::GoldSpend) {
            return Err(GameError::InsufficientGold);
        }
        stock.wood = target.wood as i64;
        stock.clay = target.clay as i64;
        stock.iron = target.iron as i64;
        stock.crop = target.crop as i64;
        Ok(())
    }

    fn buy_boost(
        entries: &mut Vec<BonusEntry>,
        account: &mut GoldAccount,
        user_id: u128,
        village_owner: u128,
        village_id: u128,
        kind: BonusKind,
        cost: i64,
        now: i64,
    ) -> (r: Result<(), GameError>)
        requires
            old(account).wf(),
            cost >= 0,
            now <= MAX_INSTANT,
            kind != BonusKind::Plus,
        ensures
            final(account).wf(),
            r == if village_owner != user_id {
                Err(GameError::NotOwner)
            } else if has_active(old(entries)@, user_id, village_id, kind, now as int) {
                Err(GameError::AlreadyActive)
            } else if old(account).gold_balance < cost {
                Err(GameError::InsufficientGold)
            } else {
                Ok::<(), GameError>(())
            },
            r is Ok ==> final(account).gold_balance == old(account).gold_balance - cost && final(entries)@
                == old(entries)@.push(
                BonusEntry { user_id, village_id, kind, expires_at: (now + BOOST_DURATION_MS) as i64 },
            ),
            r is Err ==> final(account).same(old(account)) && final(entries)@ == old(entries)@,
    {
        if village_owner != user_id {
            return Err(GameError::NotOwner);
        }
        if Self::has_active_boost(entries, user_id, village_id, kind, now) {
            return Err(GameError::AlreadyActive);
        }
        if !account.debit(cost, LedgerKind::GoldSpend) {
            return Err(GameError::InsufficientGold);
        }
        entries.push(BonusEntry { user_id, village_id, kind, expires_at: now + BOOST_DURATION_MS });
        Ok(())
    }

    /// A +25% bonus on one resource of one village for a day, for five gold;
    /// refused while one for the same village and resource is active.
    pub fn use_production_bonus(
        entries: &mut Vec<BonusEntry>,
        account: &mut GoldAccount,
        user_id: u128,
        village_owner: u128,
        village_id: u128,
        resource: TradeResourceType,
        now: i64,
    ) -> (r: Result<(), GameError>)
        requires
            old(account).wf(),
            now <= MAX_INSTANT,
        ensures
            final(account).wf(),
            r == if village_owner != user_id {
                Err(GameError::NotOwner)
            } else if has_active(old(entries)@, user_id, village_id, BonusKind::Production(resource), now as int) {
                Err(GameError::AlreadyActive)
            } else if old(account).gold_balance < PRODUCTION_BONUS_COST {
                Err(GameError::InsufficientGold)
            } else {
                Ok::<(), GameError>(())
            },
            r is Ok ==> final(account).gold_balance == old(account).gold_balance - PRODUCTION_BONUS_COST
                && final(entries)@ == old(entries)@.push(
                BonusEntry {
                    user_id,
                    village_id,
                    kind: BonusKind::Production(resource),
                    expires_at: (now + BOOST_DURATION_MS) as i64,
                },
            ),
            r is Err ==> final(account).same(old(account)) && final(entries)@ == old(entries)@,
    {
        Self::buy_boost(
            entries,
            account,
            user_id,
            village_owner,
            village_id,
            BonusKind::Production(resource),
            PRODUCTION_BONUS_COST,
            now,
        )
    }

    /// The book of wisdom for one village for a day, for fifteen gold;
    /// refused while one is active for the village.
    pub fn use_book_of_wisdom(
        entries: &mut Vec<BonusEntry>,
        account: &mut GoldAccount,
        user_id: u128,
        village_owner: u128,
        village_id: u128,
        now: i64,
    ) -> (r: Result<(), GameError>)
        requires
            old(account).wf(),
            now <= MAX_INSTANT,
        ensures
            final(account).wf(),
            r == if village_owner != user_id {
                Err(GameError::NotOwner)
            } else if has_active(old(entries)@, user_id, village_id, BonusKind::BookOfWisdom, now as int) {
                Err(GameError::AlreadyActive)
            } else if old(account).gold_balance < BOOK_OF_WISDOM_COST {
                Err(GameError::InsufficientGold)
            } else {
                Ok::<(), GameError>(())
            },
            r is Ok ==> final(account).gold_balance == old(account).gold_balance - BOOK_OF_WISDOM_COST
                && final(entries)@ == old(entries)@.push(
                BonusEntry {
                    user_id,
                    village_id,
                    kind: BonusKind::BookOfWisdom,
                    expires_at: (now + BOOST_DURATION_MS) as i64,
                },
            ),
            r is Err ==> final(account).same(old(account)) && final(entries)@ == old(entries)@,
    {
        Self::buy_boost(
            entries,
            account,
            user_id,
            village_owner,
            village_id,
            BonusKind::BookOfWisdom,
            BOOK_OF_WISDOM_COST,
            now,
        )
    }

    /// Buys `days` days of the plus subscription at the listed price. The
    /// user's plus entry is extended from its expiry, or from `now` when that
    /// is later; a user without one gets a new entry.
    pub fn buy_subscription(
        entries: &mut Vec<BonusEntry>,
        account: &mut GoldAccount,
        prices: &Vec<SubscriptionPrice>,
        user_id: u128,
        days: i32,
        now: i64,
    ) -> (r: Result<i64, GameError>)
        requires
            old(account).wf(),
            now <= MAX_INSTANT,
            forall|i: int| 0 <= i < prices@.len() ==> 0 <= #[trigger] prices@[i].gold_cost
                && 1 <= prices@[i].duration_days <= MAX_SUBSCRIPTION_DAYS,
            forall|i: int| 0 <= i < old(entries)@.len() ==> #[trigger] old(entries)@[i].expires_at
                <= MAX_INSTANT,
        ensures
            final(account).wf(),
            forall|i: int| 0 <= i < final(entries)@.len() ==> #[trigger] final(entries)@[i].expires_at
                <= MAX_INSTANT + MAX_SUBSCRIPTION_DAYS * DAY_MS,
            r == match price_for(prices@, days as int) {
                None => Err(GameError::InvalidDuration),
                Some(p) => if old(account).gold_balance < p {
                    Err(GameError::InsufficientGold)
                } else {
                    Ok(p as i64)
                },
            },
            r matches Ok(p) ==> final(account).gold_balance == old(account).gold_balance - p
                && match first_plus(old(entries)@, user_id) {
                Some(i) => final(entries)@ == old(entries)@.update(
                    i,
                    BonusEntry {
                        expires_at: (if old(entries)@[i].expires_at > now {
                            old(entries)@[i].expires_at as int
                        } else {
                            now as int
                        } + days * DAY_MS) as i64,
                        ..old(entries)@[i]
                    },
                ),
                None => final(entries)@ == old(entries)@.push(
                    BonusEntry {
                        user_id,
                        village_id: 0,
                        kind: BonusKind::Plus,
                        expires_at: (now + days * DAY_MS) as i64,
                    },
                ),
            },
            r is Err ==> final(account).same(old(account)) && final(entries)@ == old(entries)@,
    {
        let mut k: usize = 0;
        let mut price: Option<i64> = None;
        proof {
            assert(prices@.skip(0) =~= prices@);
        }
        while k < prices.len() && price.is_none()
            invariant
                k <= prices@.len(),
                price_for(prices@, days as int) == match price {
                    Some(p) => Some(p as int),
                    None => price_for(prices@.skip(k as int), days as int),
                },
                price matches Some(p) ==> 0 <= p,
                forall|i: int| 0 <= i < prices@.len() ==> 0 <= #[trigger] prices@[i].gold_cost
                    && 1 <= prices@[i].duration_days <= MAX_SUBSCRIPTION_DAYS,
            decreases prices@.len() - k,
        {
            proof {
                assert(prices@.skip(k as int).drop_first() =~= prices@.skip(k + 1));
                assert(prices@.skip(k as int)[0] == prices@[k as int]);
            }
            if prices[k].duration_days == days {
                price = Some(prices[k].gold_cost);
            }
            k = k + 1;
        }
        proof {
            if price is None {
                assert(prices@.skip(prices@.len() as int) =~= seq![]);
            }
        }
        let cost = match price {
            Some(p) => p,
            None => {
                return Err(GameError::InvalidDuration);
            },
        };
        proof {
            if price_for(prices@, days as int) is Some {
                lemma_price_days(prices@, days as int);
            }
        }
        if !account.debit(cost, LedgerKind::Subscription) {
            return Err(GameError::InsufficientGold);
        }
        let span = days as i64 * DAY_MS;
        let mut i: usize = 0;
        proof {
            assert(entries@.skip(0) =~= entries@);
        }
        while i < entries.len()
            invariant
                i <= entries@.len(),
                entries@ == old(entries)@,
                account.wf(),
                account.gold_balance == old(account).gold_balance - cost,
                old(account).gold_balance >= cost,
                price_for(prices@, days as int) == Some(cost as int),
                1 <= days <= MAX_SUBSCRIPTION_DAYS,
                span == days * DAY_MS,
                now <= MAX_INSTANT,
                forall|j: int| 0 <= j < old(entries)@.len() ==> #[trigger] old(entries)@[j].expires_at
                    <= MAX_INSTANT,
                first_plus(old(entries)@, user_id) == match first_plus(old(entries)@.skip(i as int), user_id) {
                    Some(j) => Some(j + i),
                    None => None::<int>,
                },
            decreases entries@.len() - i,
        {
            proof {
                assert(entries@.skip(i as int).drop_first() =~= entries@.skip(i + 1));
                assert(entries@.skip(i as int)[0] == entries@[i as int]);
            }
            let e = entries[i];
            if e.user_id == user_id && e.kind == BonusKind::Plus {
                proof {
                    assert(old(entries)@[i as int].expires_at <= MAX_INSTANT);
                }
                let from = if e.expires_at > now {
                    e.expires_at
                } else {
                    now
                };
                entries.set(i, BonusEntry { expires_at: from + span, ..e });
                proof {
                    assert forall|j: int| 0 <= j < entries@.len() implies #[trigger] entries@[j].expires_at
                        <= MAX_INSTANT + MAX_SUBSCRIPTION_DAYS * DAY_MS by {
                        if j != i {
                            assert(entries@[j] == old(entries)@[j]);
                            assert(old(entries)@[j].expires_at <= MAX_INSTANT);
                        }
                    }
                }
                return Ok(cost);
            }
            i = i + 1;
        }
        proof {
            assert(entries@.skip(entries@.len() as int) =~= seq![]);
        }
        entries.push(BonusEntry { user_id, village_id: 0, kind: BonusKind::Plus, expires_at: now + span });
        proof {
            assert forall|j: int| 0 <= j < entries@.len() implies #[trigger] entries@[j].expires_at
                <= MAX_INSTANT + MAX_SUBSCRIPTION_DAYS * DAY_MS by {
                if j < old(entries)@.len() {
                    assert(entries@[j] == old(entries)@[j]);
                    assert(old(entries)@[j].expires_at <= MAX_INSTANT);
                }
            }
        }
        Ok(cost)
    }

    /// The gold a package credits.
    pub fn package_total_gold(package: &GoldPackage) -> (r: i64)
        requires
            0 <= package.gold_amount,
            0 <= package.bonus_percent <= 1000,
        ensures
            r == package_gold(*package),
    {
        proof {
            assert(0 <= package.gold_amount * package.bonus_percent <= i32::MAX * 1000) by (nonlinear_arith)
                requires
                    0 <= package.gold_amount <= i32::MAX,
                    0 <= package.bonus_percent <= 1000,
            ;
        }
        let g = package.gold_amount as i64;
        g + g * package.bonus_percent as i64 / 100
    }

    /// Credits a captured payment: a pending purchase credits its gold and
    /// becomes completed; any other is left as it is, so a replayed
    /// confirmation changes nothing. Returns whether gold was credited.
    pub fn complete_checkout(transaction: &mut ShopTransaction, account: &mut GoldAccount) -> (r: bool)
        requires
            old(account).wf(),
            old(account).user_id == old(transaction).user_id,
            0 <= old(transaction).gold_amount,
            old(account).gold_balance + old(transaction).gold_amount <= i64::MAX,
        ensures
            final(account).wf(),
            r == (old(transaction).status == TransactionStatus::Pending),
            r ==> final(account).gold_balance == old(account).gold_balance + old(transaction).gold_amount
                && *final(transaction) == (ShopTransaction {
                status: TransactionStatus::Completed,
                ..*old(transaction)
            }),
            !r ==> final(account).same(old(account)) && *final(transaction) == *old(transaction),
    {
        if transaction.status != TransactionStatus::Pending {
            return false;
        }
        account.credit(transaction.gold_amount, LedgerKind::GoldPurchase);
        transaction.status = TransactionStatus::Completed;
        true
    }

    /// A payment session that ended unpaid: a pending purchase fails, any
    /// other is left as it is.
    pub fn expire_checkout(transaction: &mut ShopTransaction)
        ensures
            old(transaction).status == TransactionStatus::Pending ==> *final(transaction) == (ShopTransaction {
                status: TransactionStatus::Failed,
                ..*old(transaction)
            }),
            old(transaction).status != TransactionStatus::Pending ==> *final(transaction) == *old(
                transaction,
            ),
    {
        if transaction.status == TransactionStatus::Pending {
            transaction.status = TransactionStatus::Failed;
        }
    }
}

proof fn lemma_price_days(prices: Seq<SubscriptionPrice>, days: int)
    requires
        price_for(prices, days) is Some,
        forall|i: int| 0 <= i < prices.len() ==> 0 <= #[trigger] prices[i].gold_cost
            && 1 <= prices[i].duration_days <= MAX_SUBSCRIPTION_DAYS,
    ensures
        1 <= days <= MAX_SUBSCRIPTION_DAYS,
    decreases prices.len(),
{
    if prices[0].duration_days != days {
        assert forall|i: int| 0 <= i < prices.drop_first().len() implies 0
            <= #[trigger] prices.drop_first()[i].gold_cost && 1 <= prices.drop_first()[i].duration_days
            <= MAX_SUBSCRIPTION_DAYS by {
            assert(prices.drop_first()[i] == prices[i + 1]);
        }
        lemma_price_days(prices.drop_first(), days);
    } else {
        assert(prices[0] == prices[0]);
    }
}

} // verus!
