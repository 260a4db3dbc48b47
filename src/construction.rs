//! The building engine: prerequisite checks, starting an upgrade, completing
//! it, and the storage and population that the buildings of a village give.
use vstd::prelude::*;
use vstd::arithmetic::power::pow;
use crate::building::{
    Building, BuildingCost, BuildingPrerequisite, BuildingType, BASE_STORAGE, MAX_BUILDINGS,
    MAX_BUILDING_LEVEL, all_wf, cost_scaled, scaled,
};
use crate::error::GameError;
use crate::production::{MAX_INSTANT, ProductionRates, ResourceService, VillageStock, spec_accrue};

verus! {

/// A prerequisite that the village does not meet.
#[derive(Debug, Clone, Copy, PartialEq, Eq, Structural)]
pub struct MissingPrerequisite {
    pub building_type: BuildingType,
    pub required_level: i32,
    /// The highest level of that kind in the village; zero when there is none.
    pub current_level: i32,
}

/// The highest level among the buildings of kind `t` in `bs`; zero when there is none.
pub open spec fn highest_level(bs: Seq<Building>, t: BuildingType) -> int
    decreases bs.len(),
{
    if bs.len() == 0 {
        0
    } else {
        let rest = highest_level(bs.drop_last(), t);
        let b = bs.last();
        if b.building_type == t && b.level > rest {
            b.level as int
        } else {
            rest
        }
    }
}

/// The prerequisites among `ps` that the buildings `bs` do not meet, in table order.
pub open spec fn missing_prereqs(bs: Seq<Building>, ps: Seq<BuildingPrerequisite>) -> Seq<
    MissingPrerequisite,
>
    decreases ps.len(),
{
    if ps.len() == 0 {
        seq![]
    } else {
        let rest = missing_prereqs(bs, ps.drop_last());
        let p = ps.last();
        let cur = highest_level(bs, p.building_type);
        if cur < p.min_level {
            rest.push(
                MissingPrerequisite {
                    building_type: p.building_type,
                    required_level: p.min_level,
                    current_level: cur as i32,
                },
            )
        } else {
            rest
        }
    }
}

/// Σ of what the warehouses (or granaries) among `bs` add to storage.
pub open spec fn storage_sum(bs: Seq<Building>, t: BuildingType) -> int
    decreases bs.len(),
{
    if bs.len() == 0 {
        0
    } else {
        let b = bs.last();
        storage_sum(bs.drop_last(), t) + if b.building_type == t {
            t.spec_storage_capacity(b.level as int)
        } else {
            0
        }
    }
}

/// Σ population of the buildings `bs`.
pub open spec fn population_sum(bs: Seq<Building>) -> int
    decreases bs.len(),
{
    if bs.len() == 0 {
        0
    } else {
        let b = bs.last();
        population_sum(bs.drop_last()) + b.building_type.spec_population_at_level(b.level as int)
    }
}

/// `stock` after paying `cost`.
pub open spec fn after_payment(stock: VillageStock, cost: BuildingCost) -> VillageStock {
    VillageStock {
        wood: (stock.wood - cost.wood) as i64,
        clay: (stock.clay - cost.clay) as i64,
        iron: (stock.iron - cost.iron) as i64,
        crop: (stock.crop - cost.crop) as i64,
        ..stock
    }
}

/// `stock` holds at least `cost` of every resource.
pub open spec fn covers(stock: VillageStock, cost: BuildingCost) -> bool {
    &&& stock.wood >= cost.wood
    &&& stock.clay >= cost.clay
    &&& stock.iron >= cost.iron
    &&& stock.crop >= cost.crop
}

/// The outcome of asking to upgrade `b` once the stock has caught up to
/// `stock`: the checks in order are an upgrade in flight, the top level, the
/// prerequisites, then the resources; success gives the cost of the next level.
pub open spec fn upgrade_outcome(b: Building, bs: Seq<Building>, stock: VillageStock) -> Result<
    BuildingCost,
    GameError,
> {
    let cost = b.building_type.spec_cost_at_level(b.level + 1);
    if b.is_upgrading {
        Err(GameError::AlreadyUpgrading)
    } else if b.level >= MAX_BUILDING_LEVEL {
        Err(GameError::MaxLevelReached)
    } else if missing_prereqs(bs, b.building_type.spec_prerequisites()).len() > 0 {
        Err(GameError::MissingPrerequisites)
    } else if !covers(stock, cost) {
        Err(GameError::InsufficientResources)
    } else {
        Ok(cost)
    }
}

/// The time of any level from the first on is at least one second.
proof fn lemma_level_time_positive(t: BuildingType, level: int)
    requires
        1 <= level <= MAX_BUILDING_LEVEL,
    ensures
        1 <= t.spec_cost_at_level(level).time_seconds <= 109 * 600,
{
    let v = t.spec_base_cost().time_seconds as int;
    assert(150 <= v <= 600);
    let e = (level - 1) as nat;
    crate::building::lemma_scale_cost_bounds(v, level);
    crate::building::lemma_pow_base_le(25, 32, e);
    vstd::arithmetic::power::lemma_pow_positive(25, e);
    let n = pow(32, e);
    let d = pow(25, e);
    assert(v * d <= v * n) by (nonlinear_arith)
        requires
            d <= n,
            v >= 0,
    ;
    vstd::arithmetic::div_mod::lemma_div_is_ordered(v * d, v * n, d);
    vstd::arithmetic::div_mod::lemma_div_by_multiple(v, d);
}

/// The building engine's operations.
pub struct BuildingService;

impl BuildingService {
    /// The highest level among the buildings of kind `t`; zero when there is none.
    pub fn highest_level_of(buildings: &Vec<Building>, t: BuildingType) -> (r: i32)
        requires
            all_wf(buildings@),
        ensures
            r == highest_level(buildings@, t),
    {
        let mut best: i32 = 0;
        let mut i: usize = 0;
        while i < buildings.len()
            invariant
                i <= buildings@.len(),
                all_wf(buildings@),
                best == highest_level(buildings@.take(i as int), t),
            decreases buildings@.len() - i,
        {
            let b = buildings[i];
            proof {
                assert(buildings@.take(i + 1).drop_last() =~= buildings@.take(i as int));
                assert(buildings@.take(i + 1).last() == b);
            }
            if b.building_type == t && b.level > best {
                best = b.level;
            }
            i = i + 1;
        }
        proof {
            assert(buildings@.take(buildings@.len() as int) =~= buildings@);
        }
        best
    }

    /// The prerequisites of building kind `t` that the village's buildings do
    /// not meet, in table order.
    pub fn check_prerequisites(buildings: &Vec<Building>, t: BuildingType) -> (r: Vec<MissingPrerequisite>)
        requires
            all_wf(buildings@),
        ensures
            r@ == missing_prereqs(buildings@, t.spec_prerequisites()),
    {
        let prerequisites = t.prerequisites();
        let mut missing: Vec<MissingPrerequisite> = Vec::new();
        let mut i: usize = 0;
        while i < prerequisites.len()
            invariant
                i <= prerequisites@.len(),
                prerequisites@ == t.spec_prerequisites(),
                all_wf(buildings@),
                missing@ == missing_prereqs(buildings@, prerequisites@.take(i as int)),
            decreases prerequisites@.len() - i,
        {
            let p = prerequisites[i];
            proof {
                assert(prerequisites@.take(i + 1).drop_last() =~= prerequisites@.take(i as int));
                assert(prerequisites@.take(i + 1).last() == p);
            }
            let current = Self::highest_level_of(buildings, p.building_type);
            if current < p.min_level {
                missing.push(
                    MissingPrerequisite {
                        building_type: p.building_type,
                        required_level: p.min_level,
                        current_level: current,
                    },
                );
            }
            i = i + 1;
        }
        proof {
            assert(prerequisites@.take(prerequisites@.len() as int) =~= prerequisites@);
        }
        missing
    }

    /// Succeeds exactly when the village meets every prerequisite of kind `t`.
    pub fn validate_can_build(buildings: &Vec<Building>, t: BuildingType) -> (r: Result<(), GameError>)
        requires
            all_wf(buildings@),
        ensures
            r == if missing_prereqs(buildings@, t.spec_prerequisites()).len() == 0 {
                Ok::<(), GameError>(())
            } else {
                Err(GameError::MissingPrerequisites)
            },
    {
        let missing = Self::check_prerequisites(buildings, t);
        if missing.len() > 0 {
            return Err(GameError::MissingPrerequisites);
        }
        Ok(())
    }

    /// Starts upgrading `building` to its next level at `now`. First the
    /// village's stock catches up to `now`; then the checks of
    /// `upgrade_outcome` run against the caught-up stock. On success the cost
    /// is paid and the upgrade ends `time_seconds` after `now`.
    pub fn start_upgrade(
        building: &mut Building,
        buildings: &Vec<Building>,
        stock: &mut VillageStock,
        rates: &ProductionRates,
        now: i64,
    ) -> (r: Result<BuildingCost, GameError>)
        requires
            old(building).wf(),
            all_wf(buildings@),
            old(stock).wf(),
            rates.bounded(),
            now <= MAX_INSTANT,
        ensures
            r == upgrade_outcome(*old(building), buildings@, spec_accrue(*old(stock), *rates, now as int)),
            final(building).wf(),
            final(stock).wf(),
            match r {
                Ok(cost) => {
                    &&& *final(stock) == after_payment(spec_accrue(*old(stock), *rates, now as int), cost)
                    &&& *final(building) == (Building {
                        is_upgrading: true,
                        upgrade_ends_at: Some((now + cost.time_seconds * 1000) as i64),
                        ..*old(building)
                    })
                    &&& cost.time_seconds >= 1
                },
                Err(_) => {
                    &&& *final(stock) == spec_accrue(*old(stock), *rates, now as int)
                    &&& *final(building) == *old(building)
                },
            },
    {
        ResourceService::update_village_resources(stock, rates, now);
        if building.is_upgrading {
            return Err(GameError::AlreadyUpgrading);
        }
        if building.level >= MAX_BUILDING_LEVEL {
            return Err(GameError::MaxLevelReached);
        }
        let next = building.level + 1;
        let cost = building.building_type.cost_at_level(next);
        Self::validate_can_build(buildings, building.building_type)?;
        if stock.wood < cost.wood as i64 || stock.clay < cost.clay as i64 || stock.iron < cost.iron as i64
            || stock.crop < cost.crop as i64 {
            return Err(GameError::InsufficientResources);
        }
        proof {
            lemma_level_time_positive(building.building_type, next as int);
            crate::building::lemma_cost_nonneg(building.building_type, next as int);
        }
        stock.wood = stock.wood - cost.wood as i64;
        stock.clay = stock.clay - cost.clay as i64;
        stock.iron = stock.iron - cost.iron as i64;
        stock.crop = stock.crop - cost.crop as i64;
        building.is_upgrading = true;
        building.upgrade_ends_at = Some(now + cost.time_seconds as i64 * 1000);
        Ok(cost)
    }

    /// Completes the upgrade in flight: one level up, upgrade flags cleared.
    pub fn complete_upgrade(building: &mut Building)
        requires
            old(building).wf(),
            old(building).is_upgrading,
        ensures
            final(building).wf(),
            *final(building) == (Building {
                level: (old(building).level + 1) as i32,
                is_upgrading: false,
                upgrade_ends_at: None,
                ..*old(building)
            }),
    {
        building.level = building.level + 1;
        building.is_upgrading = false;
        building.upgrade_ends_at = None;
    }

    /// Warehouse and granary capacity of a village: the base storage plus what
    /// each warehouse (granary) adds at its level.
    pub fn village_storage(buildings: &Vec<Building>) -> (r: (i32, i32))
        requires
            all_wf(buildings@),
            buildings@.len() <= MAX_BUILDINGS,
        ensures
            r.0 == BASE_STORAGE + storage_sum(buildings@, BuildingType::Warehouse),
            r.1 == BASE_STORAGE + storage_sum(buildings@, BuildingType::Granary),
            r.0 > 0,
            r.1 > 0,
    {
        let mut warehouse: i32 = BASE_STORAGE;
        let mut granary: i32 = BASE_STORAGE;
        let mut i: usize = 0;
        while i < buildings.len()
            invariant
                i <= buildings@.len() <= MAX_BUILDINGS,
                all_wf(buildings@),
                warehouse == BASE_STORAGE + storage_sum(buildings@.take(i as int), BuildingType::Warehouse),
                granary == BASE_STORAGE + storage_sum(buildings@.take(i as int), BuildingType::Granary),
                BASE_STORAGE <= warehouse <= BASE_STORAGE + 15600 * i,
                BASE_STORAGE <= granary <= BASE_STORAGE + 15600 * i,
            decreases buildings@.len() - i,
        {
            let b = buildings[i];
            proof {
                assert(buildings@.take(i + 1).drop_last() =~= buildings@.take(i as int));
                assert(buildings@.take(i + 1).last() == b);
                assert(buildings@[i as int].wf());
            }
            match b.building_type {
                BuildingType::Warehouse => {
                    warehouse = warehouse + b.building_type.storage_capacity(b.level);
                },
                BuildingType::Granary => {
                    granary = granary + b.building_type.storage_capacity(b.level);
                },
                _ => {},
            }
            i = i + 1;
        }
        proof {
            assert(buildings@.take(buildings@.len() as int) =~= buildings@);
        }
        (warehouse, granary)
    }

    /// Population of a village: Σ population of its buildings at their levels.
    pub fn village_population(buildings: &Vec<Building>) -> (r: i32)
        requires
            all_wf(buildings@),
            buildings@.len() <= MAX_BUILDINGS,
        ensures
            r == population_sum(buildings@),
            r >= 0,
    {
        let mut total: i32 = 0;
        let mut i: usize = 0;
        while i < buildings.len()
            invariant
                i <= buildings@.len() <= MAX_BUILDINGS,
                all_wf(buildings@),
                total == population_sum(buildings@.take(i as int)),
                0 <= total <= 10 * i,
            decreases buildings@.len() - i,
        {
            let b = buildings[i];
            proof {
                assert(buildings@.take(i + 1).drop_last() =~= buildings@.take(i as int));
                assert(buildings@.take(i + 1).last() == b);
                assert(buildings@[i as int].wf());
            }
            total = total + b.building_type.population_at_level(b.level);
            i = i + 1;
        }
        proof {
            assert(buildings@.take(buildings@.len() as int) =~= buildings@);
        }
        total
    }
}

} // verus!
