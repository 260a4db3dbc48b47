//! The resource engine: hourly production of a village and catch-up of its
//! stock over elapsed time, capped by storage.
use vstd::prelude::*;
use crate::building::{Building, BuildingType, MAX_BUILDINGS, all_wf, field_yield};
use crate::resources::TradeResourceType;

verus! {

/// Milliseconds in one hour.
pub const MS_PER_HOUR: i64 = 3_600_000;

/// Latest instant, in milliseconds since the epoch, at which an operation
/// may schedule something, so that every end or expiry it writes fits an `i64`.
pub const MAX_INSTANT: i64 = 0x4000_0000_0000_0000;

/// Hourly production of each resource before any field is built.
pub const BASE_PRODUCTION: i64 = 3;

/// The largest hourly rate, in either direction, that catch-up accepts.
pub const MAX_RATE: i64 = 0x100_0000_0000;

/// The resource amounts of a village, its storage and the instant, in
/// milliseconds since the epoch, up to which production has been applied.
#[derive(Debug, Clone, Copy, PartialEq, Eq, Structural)]
pub struct VillageStock {
    pub wood: i64,
    pub clay: i64,
    pub iron: i64,
    pub crop: i64,
    pub warehouse_capacity: i64,
    pub granary_capacity: i64,
    pub resources_updated_at: i64,
}

/// `v` held within `[0, cap]`.
pub open spec fn clamp(v: int, cap: int) -> int {
    if v < 0 {
        0
    } else if v > cap {
        cap
    } else {
        v
    }
}

impl VillageStock {
    /// Positive capacities that fit an `i32`, and every amount within `[0, capacity]`.
    pub open spec fn wf(self) -> bool {
        &&& 0 < self.warehouse_capacity <= i32::MAX
        &&& 0 < self.granary_capacity <= i32::MAX
        &&& 0 <= self.wood <= self.warehouse_capacity
        &&& 0 <= self.clay <= self.warehouse_capacity
        &&& 0 <= self.iron <= self.warehouse_capacity
        &&& 0 <= self.crop <= self.granary_capacity
    }

    pub open spec fn amount(self, t: TradeResourceType) -> int {
        match t {
            TradeResourceType::Wood => self.wood as int,
            TradeResourceType::Clay => self.clay as int,
            TradeResourceType::Iron => self.iron as int,
            TradeResourceType::Crop => self.crop as int,
        }
    }

    /// The storage that bounds resource `t`: the granary for crop, the warehouse otherwise.
    pub open spec fn cap(self, t: TradeResourceType) -> int {
        match t {
            TradeResourceType::Crop => self.granary_capacity as int,
            _ => self.warehouse_capacity as int,
        }
    }

    /// `self` with the amount of `t` replaced by `v`.
    pub open spec fn with(self, t: TradeResourceType, v: int) -> VillageStock {
        match t {
            TradeResourceType::Wood => VillageStock { wood: v as i64, ..self },
            TradeResourceType::Clay => VillageStock { clay: v as i64, ..self },
            TradeResourceType::Iron => VillageStock { iron: v as i64, ..self },
            TradeResourceType::Crop => VillageStock { crop: v as i64, ..self },
        }
    }

    /// `self` after `n` units of `t` arrive: what exceeds the storage is lost.
    pub open spec fn deposit(self, t: TradeResourceType, n: int) -> VillageStock {
        self.with(t, if self.amount(t) + n > self.cap(t) { self.cap(t) } else { self.amount(t) + n })
    }

    /// `self` after `n` units of `t` leave.
    pub open spec fn withdraw(self, t: TradeResourceType, n: int) -> VillageStock {
        self.with(t, self.amount(t) - n)
    }

    pub fn get(&self, t: TradeResourceType) -> (r: i64)
        ensures
            r == self.amount(t),
    {
        match t {
            TradeResourceType::Wood => self.wood,
            TradeResourceType::Clay => self.clay,
            TradeResourceType::Iron => self.iron,
            TradeResourceType::Crop => self.crop,
        }
    }

    pub fn capacity(&self, t: TradeResourceType) -> (r: i64)
        ensures
            r == self.cap(t),
    {
        match t {
            TradeResourceType::Crop => self.granary_capacity,
            _ => self.warehouse_capacity,
        }
    }

    /// Adds `n` units of `t`; what exceeds the storage is lost.
    pub fn add_capped(&mut self, t: TradeResourceType, n: i64)
        requires
            old(self).wf(),
            0 <= n <= i64::MAX - i32::MAX,
        ensures
            *final(self) == old(self).deposit(t, n as int),
            final(self).wf(),
    {
        let cap = self.capacity(t);
        let v = self.get(t) + n;
        if v > cap {
            self.set(t, cap);
        } else {
            self.set(t, v);
        }
    }

    /// Takes `n` units of `t`, which the village must hold.
    pub fn take(&mut self, t: TradeResourceType, n: i64)
        requires
            old(self).wf(),
            0 <= n <= old(self).amount(t),
        ensures
            *final(self) == old(self).withdraw(t, n as int),
            final(self).wf(),
    {
        let v = self.get(t) - n;
        self.set(t, v);
    }

    /// Replaces the amount of one resource.
    pub fn set(&mut self, t: TradeResourceType, v: i64)
        ensures
            *final(self) == old(self).with(t, v as int),
    {
        match t {
            TradeResourceType::Wood => self.wood = v,
            TradeResourceType::Clay => self.clay = v,
            TradeResourceType::Iron => self.iron = v,
            TradeResourceType::Crop => self.crop = v,
        }
    }
}

/// Which production boosts are active for a village.
#[derive(Debug, Clone, Copy, PartialEq, Eq, Structural)]
pub struct ProductionBonuses {
    /// The owner's plus subscription: +25% on every resource.
    pub plus_active: bool,
    /// A +25% bonus on wood.
    pub wood_bonus: bool,
    /// A +25% bonus on clay.
    pub clay_bonus: bool,
    /// A +25% bonus on iron.
    pub iron_bonus: bool,
    /// A +25% bonus on crop.
    pub crop_bonus: bool,
    /// The book of wisdom: +100% on every resource.
    pub book_of_wisdom: bool,
}

impl ProductionBonuses {
    /// No boost at all.
    pub fn none() -> (r: Self)
        ensures
            r.quarters(TradeResourceType::Wood) == 4,
            r.quarters(TradeResourceType::Clay) == 4,
            r.quarters(TradeResourceType::Iron) == 4,
            r.quarters(TradeResourceType::Crop) == 4,
    {
        ProductionBonuses {
            plus_active: false,
            wood_bonus: false,
            clay_bonus: false,
            iron_bonus: false,
            crop_bonus: false,
            book_of_wisdom: false,
        }
    }

    pub open spec fn specific(self, t: TradeResourceType) -> bool {
        match t {
            TradeResourceType::Wood => self.wood_bonus,
            TradeResourceType::Clay => self.clay_bonus,
            TradeResourceType::Iron => self.iron_bonus,
            TradeResourceType::Crop => self.crop_bonus,
        }
    }

    /// The production multiplier of `t` in quarters:
    /// 1 + 0.25·[plus] + 0.25·[bonus on t] + 1.0·[book] is this over four.
    pub open spec fn quarters(self, t: TradeResourceType) -> int {
        4 + (if self.plus_active { 1int } else { 0 }) + (if self.specific(t) { 1int } else { 0 })
            + (if self.book_of_wisdom { 4int } else { 0 })
    }

    /// The production multiplier of `t` in quarters.
    pub fn multiplier_quarters(&self, t: TradeResourceType) -> (r: i64)
        ensures
            r == self.quarters(t),
            4 <= r <= 10,
    {
        let specific = match t {
            TradeResourceType::Wood => self.wood_bonus,
            TradeResourceType::Clay => self.clay_bonus,
            TradeResourceType::Iron => self.iron_bonus,
            TradeResourceType::Crop => self.crop_bonus,
        };
        let mut q: i64 = 4;
        if self.plus_active {
            q = q + 1;
        }
        if specific {
            q = q + 1;
        }
        if self.book_of_wisdom {
            q = q + 4;
        }
        q
    }
}

/// Hourly production of a village.
#[derive(Debug, Clone, Copy, PartialEq, Eq, Structural)]
pub struct ProductionRates {
    pub wood_per_hour: i64,
    pub clay_per_hour: i64,
    pub iron_per_hour: i64,
    pub crop_per_hour: i64,
    /// Crop eaten per hour by the population and the troops in the village.
    pub crop_consumption: i64,
    /// `crop_per_hour − crop_consumption`; may be negative.
    pub net_crop_per_hour: i64,
}

impl ProductionRates {
    /// The rate at which the stock of `t` changes.
    pub open spec fn rate(self, t: TradeResourceType) -> int {
        match t {
            TradeResourceType::Wood => self.wood_per_hour as int,
            TradeResourceType::Clay => self.clay_per_hour as int,
            TradeResourceType::Iron => self.iron_per_hour as int,
            TradeResourceType::Crop => self.net_crop_per_hour as int,
        }
    }

    /// Every rate that changes a stock lies within `[−MAX_RATE, MAX_RATE]`.
    pub open spec fn bounded(self) -> bool {
        forall|t: TradeResourceType| -MAX_RATE <= #[trigger] self.rate(t) <= MAX_RATE
    }
}

/// The field kind that produces `t`.
pub open spec fn field_of(t: TradeResourceType) -> BuildingType {
    match t {
        TradeResourceType::Wood => BuildingType::Woodcutter,
        TradeResourceType::Clay => BuildingType::ClayPit,
        TradeResourceType::Iron => BuildingType::IronMine,
        TradeResourceType::Crop => BuildingType::CropField,
    }
}

/// Σ yield of the built fields of kind `t` among `bs`.
pub open spec fn field_output(bs: Seq<Building>, t: BuildingType) -> int
    decreases bs.len(),
{
    if bs.len() == 0 {
        0
    } else {
        let b = bs.last();
        field_output(bs.drop_last(), t) + if b.building_type == t && b.level > 0 {
            field_yield(b.level as int)
        } else {
            0
        }
    }
}

/// Hourly production of `t` by the fields `bs`, with its multiplier, rounded down.
pub open spec fn boosted_output(bs: Seq<Building>, t: TradeResourceType, bonuses: ProductionBonuses) -> int {
    (BASE_PRODUCTION + field_output(bs, field_of(t))) * bonuses.quarters(t) / 4
}

/// The production of a village with buildings `bs`, population `population` and
/// troops that eat `troop_upkeep` crop an hour.
pub open spec fn spec_rates(
    bs: Seq<Building>,
    population: int,
    troop_upkeep: int,
    bonuses: ProductionBonuses,
) -> ProductionRates {
    let crop = boosted_output(bs, TradeResourceType::Crop, bonuses);
    ProductionRates {
        wood_per_hour: boosted_output(bs, TradeResourceType::Wood, bonuses) as i64,
        clay_per_hour: boosted_output(bs, TradeResourceType::Clay, bonuses) as i64,
        iron_per_hour: boosted_output(bs, TradeResourceType::Iron, bonuses) as i64,
        crop_per_hour: crop as i64,
        crop_consumption: (population + troop_upkeep) as i64,
        net_crop_per_hour: (crop - population - troop_upkeep) as i64,
    }
}

proof fn lemma_field_output_bounds(bs: Seq<Building>, t: BuildingType)
    requires
        all_wf(bs),
    ensures
        0 <= field_output(bs, t) <= 109858 * bs.len(),
    decreases bs.len(),
{
    if bs.len() > 0 {
        let init = bs.drop_last();
        assert(all_wf(init)) by {
            assert forall|i: int| 0 <= i < init.len() implies (#[trigger] init[i]).wf() by {
                assert(init[i] == bs[i]);
            }
        }
        assert(bs.last() == bs[bs.len() - 1]);
        lemma_field_output_bounds(init, t);
    }
}

/// Floor of `rate · elapsed / MS_PER_HOUR`: what `rate` per hour yields over
/// `elapsed` milliseconds.
pub open spec fn gain(rate: int, elapsed: int) -> int {
    rate * elapsed / (MS_PER_HOUR as int)
}

/// The stock after catching up to `now`: every amount moves by what its rate
/// yields over the elapsed time, held within `[0, capacity]`; nothing changes
/// when `now` is not after the last update.
pub open spec fn spec_accrue(s: VillageStock, rates: ProductionRates, now: int) -> VillageStock {
    if now <= s.resources_updated_at {
        s
    } else {
        let e = now - s.resources_updated_at;
        VillageStock {
            wood: clamp(s.wood + gain(rates.wood_per_hour as int, e), s.warehouse_capacity as int) as i64,
            clay: clamp(s.clay + gain(rates.clay_per_hour as int, e), s.warehouse_capacity as int) as i64,
            iron: clamp(s.iron + gain(rates.iron_per_hour as int, e), s.warehouse_capacity as int) as i64,
            crop: clamp(s.crop + gain(rates.net_crop_per_hour as int, e), s.granary_capacity as int) as i64,
            warehouse_capacity: s.warehouse_capacity,
            granary_capacity: s.granary_capacity,
            resources_updated_at: now as i64,
        }
    }
}

/// Computes `clamp(amount + gain(rate, elapsed), cap)`.
fn accrue_one(amount: i64, rate: i64, elapsed: i128, cap: i64) -> (r: i64)
    requires
        0 <= amount <= cap,
        -MAX_RATE <= rate <= MAX_RATE,
        0 < elapsed <= 0x1_0000_0000_0000_0000,
    ensures
        r == clamp(amount + gain(rate as int, elapsed as int), cap as int),
{
    let h: i128 = MS_PER_HOUR as i128;
    assert(-0x100_0000_0000 * 0x1_0000_0000_0000_0000 <= rate * elapsed <= 0x100_0000_0000
        * 0x1_0000_0000_0000_0000) by (nonlinear_arith)
        requires
            -0x100_0000_0000 <= rate <= 0x100_0000_0000,
            0 < elapsed <= 0x1_0000_0000_0000_0000,
    ;
    let p: i128 = rate as i128 * elapsed;
    let g: i128 = if p >= 0 {
        p / h
    } else {
        let n: i128 = -p;
        let q: i128 = (n + h - 1) / h;
        proof {
            let m: int = n + h - 1;
            let rem: int = m % (h as int);
            vstd::arithmetic::div_mod::lemma_fundamental_div_mod(m, h as int);
            vstd::arithmetic::div_mod::lemma_mod_bound(m, h as int);
            vstd::arithmetic::div_mod::lemma_fundamental_div_mod_converse(
                p as int,
                h as int,
                -q,
                h - 1 - rem,
            );
        }
        -q
    };
    assert(g == gain(rate as int, elapsed as int));
    assert(-0x100_0000_0000 * 0x1_0000_0000_0000_0000 <= g <= 0x100_0000_0000 * 0x1_0000_0000_0000_0000)
        by (nonlinear_arith)
        requires
            g == p / h,
            h == 3_600_000,
            -0x100_0000_0000 * 0x1_0000_0000_0000_0000 <= p <= 0x100_0000_0000 * 0x1_0000_0000_0000_0000,
    ;
    let v: i128 = amount as i128 + g;
    if v < 0 {
        0
    } else if v > cap as i128 {
        cap
    } else {
        v as i64
    }
}

/// `gross · quarters / 4`, rounded down.
fn boost(gross: i64, quarters: i64) -> (r: i64)
    requires
        0 <= gross <= 10_000_000,
        4 <= quarters <= 10,
    ensures
        r == gross * quarters / 4,
        0 <= r <= 25_000_000,
{
    assert(0 <= gross * quarters <= 100_000_000) by (nonlinear_arith)
        requires
            0 <= gross <= 10_000_000,
            4 <= quarters <= 10,
    ;
    gross * quarters / 4
}

/// Catch-up keeps every amount within `[0, capacity]` and never moves the
/// update instant backwards.
pub proof fn lemma_accrue_within_capacity(s: VillageStock, rates: ProductionRates, now: int)
    requires
        s.wf(),
        now <= i64::MAX,
    ensures
        spec_accrue(s, rates, now).wf(),
        spec_accrue(s, rates, now).resources_updated_at >= s.resources_updated_at,
{
}

/// Catching up twice to the same instant is the same as catching up once.
pub proof fn lemma_accrue_idempotent(s: VillageStock, rates: ProductionRates, now: int)
    requires
        s.wf(),
        now <= i64::MAX,
    ensures
        spec_accrue(spec_accrue(s, rates, now), rates, now) == spec_accrue(s, rates, now),
{
}

/// Production that would carry a warehouse resource past the warehouse
/// capacity leaves exactly the capacity.
pub proof fn lemma_overflow_fills_to_capacity(
    s: VillageStock,
    rates: ProductionRates,
    now: int,
    t: TradeResourceType,
)
    requires
        s.wf(),
        s.resources_updated_at < now <= i64::MAX,
        t != TradeResourceType::Crop,
        s.amount(t) + gain(rates.rate(t), now - s.resources_updated_at) >= s.warehouse_capacity,
    ensures
        spec_accrue(s, rates, now).amount(t) == s.warehouse_capacity,
{
}

/// A village that eats more crop than it grows loses crop down to zero and
/// never below it.
pub proof fn lemma_negative_crop_drains_to_zero(s: VillageStock, rates: ProductionRates, now: int)
    requires
        s.wf(),
        s.resources_updated_at < now <= i64::MAX,
        rates.net_crop_per_hour < 0,
    ensures
        0 <= spec_accrue(s, rates, now).crop <= s.crop,
{
    let e = now - s.resources_updated_at;
    assert(rates.net_crop_per_hour * e <= 0) by (nonlinear_arith)
        requires
            rates.net_crop_per_hour < 0,
            e > 0,
    ;
    vstd::arithmetic::div_mod::lemma_div_is_ordered(
        rates.net_crop_per_hour * e,
        0,
        MS_PER_HOUR as int,
    );
}

/// The resource engine's operations.
pub struct ResourceService;

/// Catch-up lag below which the periodic job leaves a village alone, in milliseconds.
pub const CATCH_UP_LAG_MS: i64 = 60_000;

impl ResourceService {
    /// Whether the periodic job should catch a village up: its last update is
    /// more than a minute before `now`.
    pub fn needs_catch_up(stock: &VillageStock, now: i64) -> (r: bool)
        ensures
            r == (stock.resources_updated_at < now - CATCH_UP_LAG_MS),
    {
        (stock.resources_updated_at as i128) < now as i128 - CATCH_UP_LAG_MS as i128
    }

    /// The hourly production of a village: three plus the yield of its fields
    /// for each resource, times the active multiplier and rounded down; crop
    /// net of what the population and the troops eat.
    pub fn calculate_production(
        buildings: &Vec<Building>,
        population: i64,
        troop_upkeep: i64,
        bonuses: &ProductionBonuses,
    ) -> (r: ProductionRates)
        requires
            all_wf(buildings@),
            buildings@.len() <= MAX_BUILDINGS,
            0 <= population <= i32::MAX,
            0 <= troop_upkeep <= i32::MAX,
        ensures
            r == spec_rates(buildings@, population as int, troop_upkeep as int, *bonuses),
            r.bounded(),
    {
        let mut wood: i64 = 0;
        let mut clay: i64 = 0;
        let mut iron: i64 = 0;
        let mut crop: i64 = 0;
        let mut i: usize = 0;
        while i < buildings.len()
            invariant
                i <= buildings@.len() <= MAX_BUILDINGS,
                all_wf(buildings@),
                wood == field_output(buildings@.take(i as int), BuildingType::Woodcutter),
                clay == field_output(buildings@.take(i as int), BuildingType::ClayPit),
                iron == field_output(buildings@.take(i as int), BuildingType::IronMine),
                crop == field_output(buildings@.take(i as int), BuildingType::CropField),
            decreases buildings@.len() - i,
        {
            let b = buildings[i];
            let ghost next = buildings@.take(i + 1);
            proof {
                assert(next.drop_last() =~= buildings@.take(i as int));
                assert(next.last() == b);
                assert(all_wf(buildings@.take(i as int))) by {
                    assert forall|k: int| 0 <= k < i implies (#[trigger] buildings@.take(i as int)[k]).wf() by {
                        assert(buildings@.take(i as int)[k] == buildings@[k]);
                    }
                }
                lemma_field_output_bounds(buildings@.take(i as int), BuildingType::Woodcutter);
                lemma_field_output_bounds(buildings@.take(i as int), BuildingType::ClayPit);
                lemma_field_output_bounds(buildings@.take(i as int), BuildingType::IronMine);
                lemma_field_output_bounds(buildings@.take(i as int), BuildingType::CropField);
                assert(buildings@[i as int].wf());
            }
            if b.level > 0 {
                let y = b.building_type.production_per_hour(b.level) as i64;
                match b.building_type {
                    BuildingType::Woodcutter => wood = wood + y,
                    BuildingType::ClayPit => clay = clay + y,
                    BuildingType::IronMine => iron = iron + y,
                    BuildingType::CropField => crop = crop + y,
                    _ => {},
                }
            }
            i = i + 1;
        }
        proof {
            assert(buildings@.take(buildings@.len() as int) =~= buildings@);
            lemma_field_output_bounds(buildings@, BuildingType::Woodcutter);
            lemma_field_output_bounds(buildings@, BuildingType::ClayPit);
            lemma_field_output_bounds(buildings@, BuildingType::IronMine);
            lemma_field_output_bounds(buildings@, BuildingType::CropField);
        }
        let wood_rate = boost(BASE_PRODUCTION + wood, bonuses.multiplier_quarters(TradeResourceType::Wood));
        let clay_rate = boost(BASE_PRODUCTION + clay, bonuses.multiplier_quarters(TradeResourceType::Clay));
        let iron_rate = boost(BASE_PRODUCTION + iron, bonuses.multiplier_quarters(TradeResourceType::Iron));
        let crop_rate = boost(BASE_PRODUCTION + crop, bonuses.multiplier_quarters(TradeResourceType::Crop));
        let consumption = population + troop_upkeep;
        ProductionRates {
            wood_per_hour: wood_rate,
            clay_per_hour: clay_rate,
            iron_per_hour: iron_rate,
            crop_per_hour: crop_rate,
            crop_consumption: consumption,
            net_crop_per_hour: crop_rate - consumption,
        }
    }

    /// Catch-up: applies the production of the time elapsed since the last
    /// update to `now`, holds each amount within `[0, capacity]`, and moves the
    /// update instant to `now`. Does nothing when `now` is not later.
    pub fn update_village_resources(stock: &mut VillageStock, rates: &ProductionRates, now: i64)
        requires
            old(stock).wf(),
            rates.bounded(),
        ensures
            *final(stock) == spec_accrue(*old(stock), *rates, now as int),
            final(stock).wf(),
    {
        if now <= stock.resources_updated_at {
            return;
        }
        let e: i128 = now as i128 - stock.resources_updated_at as i128;
        proof {
            assert(-MAX_RATE <= rates.rate(TradeResourceType::Wood) <= MAX_RATE);
            assert(-MAX_RATE <= rates.rate(TradeResourceType::Clay) <= MAX_RATE);
            assert(-MAX_RATE <= rates.rate(TradeResourceType::Iron) <= MAX_RATE);
            assert(-MAX_RATE <= rates.rate(TradeResourceType::Crop) <= MAX_RATE);
        }
        let wh = stock.warehouse_capacity;
        stock.wood = accrue_one(stock.wood, rates.wood_per_hour, e, wh);
        stock.clay = accrue_one(stock.clay, rates.clay_per_hour, e, wh);
        stock.iron = accrue_one(stock.iron, rates.iron_per_hour, e, wh);
        stock.crop = accrue_one(stock.crop, rates.net_crop_per_hour, e, stock.granary_capacity);
        stock.resources_updated_at = now;
    }
}

} // verus!
