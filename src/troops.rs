//! The training engine and the garrison: troop definitions, the per-village
//! training queue, completion into the garrison, and starvation.
use vstd::prelude::*;
use crate::building::{Building, BuildingType, all_wf};
use crate::construction::{BuildingService, highest_level};
use crate::error::GameError;
use crate::production::{MAX_INSTANT, VillageStock};
use crate::resources::TradeResourceType;

verus! {

/// Largest per-unit cost of a troop in any resource.
pub const MAX_UNIT_COST: i32 = 100_000;

/// Longest per-unit training time, in seconds.
pub const MAX_UNIT_TIME: i32 = 86_400;

/// Largest per-unit crop upkeep.
pub const MAX_UNIT_UPKEEP: i32 = 1_000;

#[derive(Debug, Clone, Copy, PartialEq, Eq, Structural)]
pub enum TroopType {
    Infantry,
    Spearman,
    WarElephant,
    Crossbowman,
    MountainWarrior,
}

impl TroopType {
    pub open spec fn spec_name(self) -> Seq<char> {
        match self {
            TroopType::Infantry => "infantry"@,
            TroopType::Spearman => "spearman"@,
            TroopType::WarElephant => "war_elephant"@,
            TroopType::Crossbowman => "crossbowman"@,
            TroopType::MountainWarrior => "mountain_warrior"@,
        }
    }

    /// The snake-case name under which the store keeps this kind.
    pub fn as_str(&self) -> (r: &'static str)
        ensures
            r@ == self.spec_name(),
    {
        match self {
            TroopType::Infantry => "infantry",
            TroopType::Spearman => "spearman",
            TroopType::WarElephant => "war_elephant",
            TroopType::Crossbowman => "crossbowman",
            TroopType::MountainWarrior => "mountain_warrior",
        }
    }
}

/// The fixed properties of a kind of troop.
#[derive(Debug, Clone, Copy, PartialEq, Eq, Structural)]
pub struct TroopDefinition {
    pub troop_type: TroopType,
    pub wood_cost: i32,
    pub clay_cost: i32,
    pub iron_cost: i32,
    pub crop_cost: i32,
    pub training_time_seconds: i32,
    pub crop_consumption: i32,
    pub required_building: BuildingType,
    pub required_building_level: i32,
}

impl TroopDefinition {
    /// Costs, time and upkeep within their ranges; at least one second per unit.
    pub open spec fn wf(self) -> bool {
        &&& 0 <= self.wood_cost <= MAX_UNIT_COST
        &&& 0 <= self.clay_cost <= MAX_UNIT_COST
        &&& 0 <= self.iron_cost <= MAX_UNIT_COST
        &&& 0 <= self.crop_cost <= MAX_UNIT_COST
        &&& 1 <= self.training_time_seconds <= MAX_UNIT_TIME
        &&& 0 <= self.crop_consumption <= MAX_UNIT_UPKEEP
    }
}

/// What a batch costs.
#[derive(Debug, Clone, Copy, PartialEq, Eq, Structural)]
pub struct TroopCost {
    pub wood: i64,
    pub clay: i64,
    pub iron: i64,
    pub crop: i64,
    pub time_seconds: i64,
}

/// The cost of `count` units: per-unit cost times `count`.
pub open spec fn batch_cost(d: TroopDefinition, count: int) -> TroopCost {
    TroopCost {
        wood: (d.wood_cost * count) as i64,
        clay: (d.clay_cost * count) as i64,
        iron: (d.iron_cost * count) as i64,
        crop: (d.crop_cost * count) as i64,
        time_seconds: (d.training_time_seconds * count) as i64,
    }
}

/// A batch in a village's training queue; instants in milliseconds since the epoch.
#[derive(Debug, Clone, Copy, PartialEq, Eq, Structural)]
pub struct TrainingEntry {
    pub id: u128,
    pub village_id: u128,
    pub troop_type: TroopType,
    pub count: i32,
    pub unit_time_seconds: i32,
    pub started_at: i64,
    pub ends_at: i64,
}

impl TrainingEntry {
    /// A positive batch whose span is exactly its count times the per-unit time.
    pub open spec fn wf(self) -> bool {
        &&& self.count > 0
        &&& 1 <= self.unit_time_seconds <= MAX_UNIT_TIME
        &&& self.ends_at - self.started_at == self.count * self.unit_time_seconds * 1000
    }
}

/// The queue is FIFO: every batch is well formed and starts no earlier than
/// the previous one ends, so start instants strictly increase.
pub open spec fn queue_wf(q: Seq<TrainingEntry>) -> bool {
    &&& forall|i: int| 0 <= i < q.len() ==> (#[trigger] q[i]).wf()
    &&& forall|i: int| 0 <= i < q.len() - 1 ==> #[trigger] q[i].ends_at <= q[i + 1].started_at
}

/// Start instants strictly increase along the queue.
pub open spec fn strictly_ordered(q: Seq<TrainingEntry>) -> bool {
    forall|i: int, j: int| 0 <= i < j < q.len() ==> #[trigger] q[i].started_at < #[trigger] q[j].started_at
}

/// The instant a new batch queued at `now` starts: `now`, or the end of the
/// last batch when that is later.
pub open spec fn next_start(q: Seq<TrainingEntry>, now: int) -> int {
    if q.len() > 0 && q.last().ends_at > now {
        q.last().ends_at as int
    } else {
        now
    }
}

/// The troops of one kind that a village holds, with the crop each eats an hour.
#[derive(Debug, Clone, Copy, PartialEq, Eq, Structural)]
pub struct GarrisonEntry {
    pub troop_type: TroopType,
    /// Troops of this kind that belong to the village.
    pub count: i64,
    /// Troops of this kind now in the village.
    pub in_village: i64,
    pub crop_consumption: i32,
}

/// No kind appears twice, no count is negative, and upkeep is in range.
pub open spec fn garrison_wf(g: Seq<GarrisonEntry>) -> bool {
    &&& forall|i: int| 0 <= i < g.len() ==> 0 <= (#[trigger] g[i]).in_village && 0 <= g[i].count
        && 0 <= g[i].crop_consumption <= MAX_UNIT_UPKEEP
    &&& forall|i: int, j: int| 0 <= i < j < g.len() ==> #[trigger] g[i].troop_type != #[trigger] g[j].troop_type
}

/// Index `i` is the starvation victim: troops of its kind are present, none
/// present eats more, and none present before it eats as much.
pub open spec fn is_victim(g: Seq<GarrisonEntry>, i: int) -> bool {
    &&& 0 <= i < g.len()
    &&& g[i].in_village > 0
    &&& forall|j: int| 0 <= j < g.len() && #[trigger] g[j].in_village > 0 ==> g[j].crop_consumption
        <= g[i].crop_consumption
    &&& forall|j: int| 0 <= j < i && #[trigger] g[j].in_village > 0 ==> g[j].crop_consumption
        < g[i].crop_consumption
}

/// No troop is in the village.
pub open spec fn nobody_home(g: Seq<GarrisonEntry>) -> bool {
    forall|j: int| 0 <= j < g.len() ==> #[trigger] g[j].in_village <= 0
}

/// Σ crop eaten an hour by the troops in the village.
pub open spec fn upkeep_sum(g: Seq<GarrisonEntry>) -> int
    decreases g.len(),
{
    if g.len() == 0 {
        0
    } else {
        upkeep_sum(g.drop_last()) + g.last().in_village * g.last().crop_consumption
    }
}

/// Three quarters of what `count` units cost, each resource rounded down.
pub open spec fn refund_of(d: TroopDefinition, count: int) -> TroopCost {
    TroopCost {
        wood: (d.wood_cost * count * 3 / 4) as i64,
        clay: (d.clay_cost * count * 3 / 4) as i64,
        iron: (d.iron_cost * count * 3 / 4) as i64,
        crop: (d.crop_cost * count * 3 / 4) as i64,
        time_seconds: 0,
    }
}

/// `s` after receiving `c`, each resource held by its storage.
pub open spec fn with_refund(s: VillageStock, c: TroopCost) -> VillageStock {
    s.deposit(TradeResourceType::Wood, c.wood as int).deposit(TradeResourceType::Clay, c.clay as int).deposit(
        TradeResourceType::Iron,
        c.iron as int,
    ).deposit(TradeResourceType::Crop, c.crop as int)
}

proof fn lemma_refund_bounds(d: TroopDefinition, count: int)
    requires
        d.wf(),
        0 < count <= i32::MAX,
    ensures
        0 <= d.wood_cost * count * 3 <= 3 * MAX_UNIT_COST * i32::MAX,
        0 <= d.clay_cost * count * 3 <= 3 * MAX_UNIT_COST * i32::MAX,
        0 <= d.iron_cost * count * 3 <= 3 * MAX_UNIT_COST * i32::MAX,
        0 <= d.crop_cost * count * 3 <= 3 * MAX_UNIT_COST * i32::MAX,
{
    assert(0 <= d.wood_cost * count * 3 <= 3 * MAX_UNIT_COST * i32::MAX) by (nonlinear_arith)
        requires
            0 <= d.wood_cost <= MAX_UNIT_COST,
            0 < count <= i32::MAX,
    ;
    assert(0 <= d.clay_cost * count * 3 <= 3 * MAX_UNIT_COST * i32::MAX) by (nonlinear_arith)
        requires
            0 <= d.clay_cost <= MAX_UNIT_COST,
            0 < count <= i32::MAX,
    ;
    assert(0 <= d.iron_cost * count * 3 <= 3 * MAX_UNIT_COST * i32::MAX) by (nonlinear_arith)
        requires
            0 <= d.iron_cost <= MAX_UNIT_COST,
            0 < count <= i32::MAX,
    ;
    assert(0 <= d.crop_cost * count * 3 <= 3 * MAX_UNIT_COST * i32::MAX) by (nonlinear_arith)
        requires
            0 <= d.crop_cost <= MAX_UNIT_COST,
            0 < count <= i32::MAX,
    ;
}

/// Troops of kind `t` that belong to the village.
pub open spec fn garrison_count(g: Seq<GarrisonEntry>, t: TroopType) -> int
    decreases g.len(),
{
    if g.len() == 0 {
        0
    } else {
        garrison_count(g.drop_last(), t) + if g.last().troop_type == t {
            g.last().count as int
        } else {
            0
        }
    }
}

/// Troops of kind `t` now in the village.
pub open spec fn garrison_present(g: Seq<GarrisonEntry>, t: TroopType) -> int
    decreases g.len(),
{
    if g.len() == 0 {
        0
    } else {
        garrison_present(g.drop_last(), t) + if g.last().troop_type == t {
            g.last().in_village as int
        } else {
            0
        }
    }
}

proof fn lemma_garrison_update_one(g: Seq<GarrisonEntry>, i: int, e: GarrisonEntry, u: TroopType)
    requires
        0 <= i < g.len(),
        e.troop_type == g[i].troop_type,
    ensures
        garrison_count(g.update(i, e), u) == garrison_count(g, u) + if u == e.troop_type {
            e.count - g[i].count
        } else {
            0
        },
        garrison_present(g.update(i, e), u) == garrison_present(g, u) + if u == e.troop_type {
            e.in_village - g[i].in_village
        } else {
            0
        },
    decreases g.len(),
{
    let h = g.update(i, e);
    if i == g.len() - 1 {
        assert(h.drop_last() =~= g.drop_last());
    } else {
        lemma_garrison_update_one(g.drop_last(), i, e, u);
        assert(h.drop_last() =~= g.drop_last().update(i, e));
    }
}

proof fn lemma_garrison_update(g: Seq<GarrisonEntry>, i: int, e: GarrisonEntry)
    requires
        0 <= i < g.len(),
        e.troop_type == g[i].troop_type,
    ensures
        forall|u: TroopType| #[trigger] garrison_count(g.update(i, e), u) == garrison_count(g, u) + if u
            == e.troop_type {
            e.count - g[i].count
        } else {
            0
        },
        forall|u: TroopType| #[trigger] garrison_present(g.update(i, e), u) == garrison_present(g, u) + if u
            == e.troop_type {
            e.in_village - g[i].in_village
        } else {
            0
        },
{
    assert forall|u: TroopType| #[trigger] garrison_count(g.update(i, e), u) == garrison_count(g, u) + if u
        == e.troop_type {
        e.count - g[i].count
    } else {
        0
    } by {
        lemma_garrison_update_one(g, i, e, u);
    }
    assert forall|u: TroopType| #[trigger] garrison_present(g.update(i, e), u) == garrison_present(g, u)
        + if u == e.troop_type {
        e.in_village - g[i].in_village
    } else {
        0
    } by {
        lemma_garrison_update_one(g, i, e, u);
    }
}

proof fn lemma_garrison_push(g: Seq<GarrisonEntry>, e: GarrisonEntry)
    ensures
        forall|u: TroopType| #[trigger] garrison_count(g.push(e), u) == garrison_count(g, u) + if u
            == e.troop_type {
            e.count as int
        } else {
            0
        },
        forall|u: TroopType| #[trigger] garrison_present(g.push(e), u) == garrison_present(g, u) + if u
            == e.troop_type {
            e.in_village as int
        } else {
            0
        },
{
    assert(g.push(e).drop_last() =~= g);
}

/// A FIFO queue has strictly increasing start instants, and every batch
/// spans exactly its count times its per-unit time.
pub proof fn lemma_queue_strictly_ordered(q: Seq<TrainingEntry>)
    requires
        queue_wf(q),
    ensures
        strictly_ordered(q),
        forall|i: int| 0 <= i < q.len() ==> #[trigger] q[i].ends_at - q[i].started_at == q[i].count
            * q[i].unit_time_seconds * 1000,
    decreases q.len(),
{
    if q.len() > 0 {
        let init = q.drop_last();
        assert(queue_wf(init)) by {
            assert forall|i: int| 0 <= i < init.len() implies (#[trigger] init[i]).wf() by {
                assert(init[i] == q[i]);
            }
            assert forall|i: int| 0 <= i < init.len() - 1 implies #[trigger] init[i].ends_at
                <= init[i + 1].started_at by {
                assert(init[i] == q[i] && init[i + 1] == q[i + 1]);
            }
        }
        lemma_queue_strictly_ordered(init);
        assert forall|i: int| 0 <= i < q.len() implies #[trigger] q[i].started_at < q[i].ends_at by {
            let e = q[i];
            assert(e.wf());
            assert(e.count * e.unit_time_seconds * 1000 >= 1000) by (nonlinear_arith)
                requires
                    e.count > 0,
                    e.unit_time_seconds >= 1,
            ;
        }
        assert forall|i: int, j: int| 0 <= i < j < q.len() implies #[trigger] q[i].started_at
            < #[trigger] q[j].started_at by {
            if j < q.len() - 1 {
                assert(init[i] == q[i] && init[j] == q[j]);
            } else if i == q.len() - 2 {
                assert(q[i].started_at < q[i].ends_at);
            } else {
                let k = q.len() - 2;
                assert(init[i] == q[i] && init[k] == q[k]);
                assert(q[k].started_at < q[k].ends_at);
            }
        }
    }
}

/// The training engine's operations.
pub struct TroopService;

impl TroopService {
    /// Succeeds when the village has the building that trains this troop at
    /// the required level.
    pub fn check_training_requirements(buildings: &Vec<Building>, definition: &TroopDefinition) -> (r:
        Result<(), GameError>)
        requires
            all_wf(buildings@),
        ensures
            r == if highest_level(buildings@, definition.required_building)
                < definition.required_building_level {
                Err(GameError::TrainingBuildingMissing)
            } else {
                Ok::<(), GameError>(())
            },
    {
        let level = BuildingService::highest_level_of(buildings, definition.required_building);
        if level < definition.required_building_level {
            return Err(GameError::TrainingBuildingMissing);
        }
        Ok(())
    }

    /// Queues `count` troops at `now`: checks the count and the building, pays
    /// per-unit cost times `count`, and appends a batch that starts at
    /// `next_start` and lasts `count` times the per-unit time.
    pub fn train_troops(
        queue: &mut Vec<TrainingEntry>,
        buildings: &Vec<Building>,
        definition: &TroopDefinition,
        stock: &mut VillageStock,
        count: i32,
        entry_id: u128,
        village_id: u128,
        now: i64,
    ) -> (r: Result<TroopCost, GameError>)
        requires
            queue_wf(old(queue)@),
            all_wf(buildings@),
            definition.wf(),
            old(stock).wf(),
            now <= MAX_INSTANT,
            old(queue)@.len() > 0 ==> old(queue)@.last().ends_at <= MAX_INSTANT,
        ensures
            queue_wf(final(queue)@),
            final(stock).wf(),
            count <= 0 ==> r == Err::<TroopCost, GameError>(GameError::NonPositiveCount),
            (r is Ok) == (count > 0 && highest_level(buildings@, definition.required_building)
                >= definition.required_building_level && old(stock).wood >= definition.wood_cost * count
                && old(stock).clay >= definition.clay_cost * count && old(stock).iron >= definition.iron_cost
                * count && old(stock).crop >= definition.crop_cost * count),
            count > 0 && highest_level(buildings@, definition.required_building)
                < definition.required_building_level ==> r == Err::<TroopCost, GameError>(
                GameError::TrainingBuildingMissing,
            ),
            match r {
                Ok(cost) => {
                    let start = next_start(old(queue)@, now as int);
                    &&& count > 0
                    &&& highest_level(buildings@, definition.required_building)
                        >= definition.required_building_level
                    &&& cost == batch_cost(*definition, count as int)
                    &&& final(stock).wood == old(stock).wood - cost.wood
                    &&& final(stock).clay == old(stock).clay - cost.clay
                    &&& final(stock).iron == old(stock).iron - cost.iron
                    &&& final(stock).crop == old(stock).crop - cost.crop
                    &&& final(queue)@ == old(queue)@.push(
                        TrainingEntry {
                            id: entry_id,
                            village_id,
                            troop_type: definition.troop_type,
                            count,
                            unit_time_seconds: definition.training_time_seconds,
                            started_at: start as i64,
                            ends_at: (start + cost.time_seconds * 1000) as i64,
                        },
                    )
                },
                Err(e) => {
                    &&& *final(stock) == *old(stock)
                    &&& final(queue)@ == old(queue)@
                    &&& (e == GameError::InsufficientResources <==> (count > 0 && highest_level(
                        buildings@,
                        definition.required_building,
                    ) >= definition.required_building_level && !(old(stock).wood >= definition.wood_cost
                        * count && old(stock).clay >= definition.clay_cost * count && old(stock).iron
                        >= definition.iron_cost * count && old(stock).crop >= definition.crop_cost
                        * count)))
                },
            },
    {
        if count <= 0 {
            return Err(GameError::NonPositiveCount);
        }
        Self::check_training_requirements(buildings, definition)?;
        proof {
            assert(0 <= definition.wood_cost * count <= MAX_UNIT_COST * i32::MAX) by (nonlinear_arith)
                requires
                    0 <= definition.wood_cost <= MAX_UNIT_COST,
                    0 < count <= i32::MAX,
            ;
            assert(0 <= definition.clay_cost * count <= MAX_UNIT_COST * i32::MAX) by (nonlinear_arith)
                requires
                    0 <= definition.clay_cost <= MAX_UNIT_COST,
                    0 < count <= i32::MAX,
            ;
            assert(0 <= definition.iron_cost * count <= MAX_UNIT_COST * i32::MAX) by (nonlinear_arith)
                requires
                    0 <= definition.iron_cost <= MAX_UNIT_COST,
                    0 < count <= i32::MAX,
            ;
            assert(0 <= definition.crop_cost * count <= MAX_UNIT_COST * i32::MAX) by (nonlinear_arith)
                requires
                    0 <= definition.crop_cost <= MAX_UNIT_COST,
                    0 < count <= i32::MAX,
            ;
            assert(1 <= definition.training_time_seconds * count <= MAX_UNIT_TIME * i32::MAX)
                by (nonlinear_arith)
                requires
                    1 <= definition.training_time_seconds <= MAX_UNIT_TIME,
                    0 < count <= i32::MAX,
            ;
        }
        let n = count as i64;
        let cost = TroopCost {
            wood: definition.wood_cost as i64 * n,
            clay: definition.clay_cost as i64 * n,
            iron: definition.iron_cost as i64 * n,
            crop: definition.crop_cost as i64 * n,
            time_seconds: definition.training_time_seconds as i64 * n,
        };
        if stock.wood < cost.wood || stock.clay < cost.clay || stock.iron < cost.iron || stock.crop
            < cost.crop {
            return Err(GameError::InsufficientResources);
        }
        stock.wood = stock.wood - cost.wood;
        stock.clay = stock.clay - cost.clay;
        stock.iron = stock.iron - cost.iron;
        stock.crop = stock.crop - cost.crop;
        let len = queue.len();
        let started_at = if len > 0 && queue[len - 1].ends_at > now {
            queue[len - 1].ends_at
        } else {
            now
        };
        let entry = TrainingEntry {
            id: entry_id,
            village_id,
            troop_type: definition.troop_type,
            count,
            unit_time_seconds: definition.training_time_seconds,
            started_at,
            ends_at: started_at + cost.time_seconds * 1000,
        };
        proof {
            assert(cost.time_seconds * 1000 == count * definition.training_time_seconds * 1000)
                by (nonlinear_arith)
                requires
                    cost.time_seconds == definition.training_time_seconds * count,
            ;
        }
        queue.push(entry);
        proof {
            let q = queue@;
            assert forall|i: int| 0 <= i < q.len() - 1 implies #[trigger] q[i].ends_at <= q[i + 1].started_at by {
                if i < q.len() - 2 {
                    assert(q[i] == old(queue)@[i] && q[i + 1] == old(queue)@[i + 1]);
                } else {
                    assert(q[i] == old(queue)@.last());
                }
            }
            assert forall|i: int| 0 <= i < q.len() implies (#[trigger] q[i]).wf() by {
                if i < q.len() - 1 {
                    assert(q[i] == old(queue)@[i]);
                }
            }
        }
        Ok(cost)
    }

    /// Cancels the batch at `index`, allowed only while it has not started
    /// (`started_at > now`). Refunds three quarters of what the batch cost,
    /// each resource rounded down and held by storage, and removes the batch.
    pub fn cancel_training(
        queue: &mut Vec<TrainingEntry>,
        index: usize,
        definition: &TroopDefinition,
        stock: &mut VillageStock,
        now: i64,
    ) -> (r: Result<TroopCost, GameError>)
        requires
            queue_wf(old(queue)@),
            definition.wf(),
            old(stock).wf(),
            index < old(queue)@.len(),
            old(queue)@[index as int].troop_type == definition.troop_type,
        ensures
            queue_wf(final(queue)@),
            final(stock).wf(),
            old(queue)@[index as int].started_at <= now ==> r == Err::<TroopCost, GameError>(
                GameError::TrainingStarted,
            ) && final(queue)@ == old(queue)@ && *final(stock) == *old(stock),
            old(queue)@[index as int].started_at > now ==> r == Ok::<TroopCost, GameError>(
                refund_of(*definition, old(queue)@[index as int].count as int),
            ) && final(queue)@ == old(queue)@.remove(index as int) && *final(stock) == with_refund(
                *old(stock),
                refund_of(*definition, old(queue)@[index as int].count as int),
            ),
    {
        let entry = queue[index];
        if entry.started_at <= now {
            return Err(GameError::TrainingStarted);
        }
        proof {
            assert(queue@[index as int].wf());
            lemma_refund_bounds(*definition, entry.count as int);
        }
        let n = entry.count as i64;
        let refund = TroopCost {
            wood: definition.wood_cost as i64 * n * 3 / 4,
            clay: definition.clay_cost as i64 * n * 3 / 4,
            iron: definition.iron_cost as i64 * n * 3 / 4,
            crop: definition.crop_cost as i64 * n * 3 / 4,
            time_seconds: 0,
        };
        stock.add_capped(TradeResourceType::Wood, refund.wood);
        stock.add_capped(TradeResourceType::Clay, refund.clay);
        stock.add_capped(TradeResourceType::Iron, refund.iron);
        stock.add_capped(TradeResourceType::Crop, refund.crop);
        queue.remove(index);
        proof {
            let q = queue@;
            let o = old(queue)@;
            assert forall|i: int| 0 <= i < q.len() implies (#[trigger] q[i]).wf() by {
                if i < index {
                    assert(q[i] == o[i]);
                } else {
                    assert(q[i] == o[i + 1]);
                }
            }
            assert forall|i: int| 0 <= i < q.len() - 1 implies #[trigger] q[i].ends_at <= q[i + 1].started_at by {
                if i + 1 < index {
                    assert(q[i] == o[i] && q[i + 1] == o[i + 1]);
                } else if i >= index {
                    assert(q[i] == o[i + 1] && q[i + 1] == o[i + 2]);
                } else {
                    assert(q[i] == o[i] && q[i + 1] == o[i + 2]);
                    assert(o[i + 1].wf());
                }
            }
        }
        Ok(refund)
    }

    /// Σ crop eaten an hour by the troops in the village.
    pub fn crop_upkeep(garrison: &Vec<GarrisonEntry>) -> (r: i64)
        requires
            garrison_wf(garrison@),
            garrison@.len() <= 16,
            forall|i: int| 0 <= i < garrison@.len() ==> #[trigger] garrison@[i].in_village <= i32::MAX,
        ensures
            r == upkeep_sum(garrison@),
            0 <= r <= 16 * i32::MAX * MAX_UNIT_UPKEEP,
    {
        let mut total: i64 = 0;
        let mut i: usize = 0;
        while i < garrison.len()
            invariant
                i <= garrison@.len() <= 16,
                garrison_wf(garrison@),
                forall|k: int| 0 <= k < garrison@.len() ==> #[trigger] garrison@[k].in_village <= i32::MAX,
                total == upkeep_sum(garrison@.take(i as int)),
                0 <= total <= i * i32::MAX * MAX_UNIT_UPKEEP,
            decreases garrison@.len() - i,
        {
            let g = garrison[i];
            proof {
                assert(garrison@.take(i + 1).drop_last() =~= garrison@.take(i as int));
                assert(garrison@.take(i + 1).last() == g);
                assert(0 <= g.in_village * g.crop_consumption <= i32::MAX * MAX_UNIT_UPKEEP)
                    by (nonlinear_arith)
                    requires
                        0 <= g.in_village <= i32::MAX,
                        0 <= g.crop_consumption <= MAX_UNIT_UPKEEP,
                ;
                assert((i + 1) * i32::MAX * MAX_UNIT_UPKEEP == i * i32::MAX * MAX_UNIT_UPKEEP + i32::MAX
                    * MAX_UNIT_UPKEEP) by (nonlinear_arith);
            }
            total = total + g.in_village * g.crop_consumption as i64;
            i = i + 1;
        }
        proof {
            assert(garrison@.take(garrison@.len() as int) =~= garrison@);
            assert(i * i32::MAX * MAX_UNIT_UPKEEP <= 16 * i32::MAX * MAX_UNIT_UPKEEP) by (nonlinear_arith)
                requires
                    i <= 16,
            ;
        }
        total
    }

    /// The index of the troops that starve first: among the kinds present, the
    /// one that eats the most, the first such on a tie; none when nobody is in
    /// the village.
    pub fn starvation_victim(garrison: &Vec<GarrisonEntry>) -> (r: Option<usize>)
        ensures
            match r {
                Some(i) => is_victim(garrison@, i as int),
                None => nobody_home(garrison@),
            },
    {
        let mut best: Option<usize> = None;
        let mut i: usize = 0;
        while i < garrison.len()
            invariant
                i <= garrison@.len(),
                match best {
                    Some(b) => {
                        &&& b < i
                        &&& garrison@[b as int].in_village > 0
                        &&& forall|j: int| 0 <= j < i && #[trigger] garrison@[j].in_village > 0
                            ==> garrison@[j].crop_consumption <= garrison@[b as int].crop_consumption
                        &&& forall|j: int| 0 <= j < b && #[trigger] garrison@[j].in_village > 0
                            ==> garrison@[j].crop_consumption < garrison@[b as int].crop_consumption
                    },
                    None => forall|j: int| 0 <= j < i ==> #[trigger] garrison@[j].in_village <= 0,
                },
            decreases garrison@.len() - i,
        {
            let g = garrison[i];
            if g.in_village > 0 {
                match best {
                    Some(b) => {
                        if g.crop_consumption > garrison[b].crop_consumption {
                            best = Some(i);
                        }
                    },
                    None => {
                        best = Some(i);
                    },
                }
            }
            i = i + 1;
        }
        best
    }

    /// One starvation tick for a village with `crop` in store: when crop is
    /// zero or less and some troop is present, one troop of the victim's kind
    /// dies (it leaves both the village and the garrison); returns its kind.
    /// Otherwise nothing changes.
    pub fn apply_starvation(crop: i64, garrison: &mut Vec<GarrisonEntry>) -> (r: Option<TroopType>)
        requires
            garrison_wf(old(garrison)@),
        ensures
            garrison_wf(final(garrison)@),
            crop > 0 ==> r is None && final(garrison)@ == old(garrison)@,
            crop <= 0 && nobody_home(old(garrison)@) ==> r is None && final(garrison)@ == old(garrison)@,
            crop <= 0 && !nobody_home(old(garrison)@) ==> exists|i: int|
                #![trigger old(garrison)@[i]]
                is_victim(old(garrison)@, i) && r == Some(old(garrison)@[i].troop_type)
                    && final(garrison)@ == old(garrison)@.update(
                    i,
                    GarrisonEntry {
                        in_village: (old(garrison)@[i].in_village - 1) as i64,
                        count: if old(garrison)@[i].count > 0 {
                            (old(garrison)@[i].count - 1) as i64
                        } else {
                            0
                        },
                        ..old(garrison)@[i]
                    },
                ),
    {
        if crop > 0 {
            return None;
        }
        match Self::starvation_victim(garrison) {
            None => None,
            Some(i) => {
                let mut g = garrison[i];
                g.in_village = g.in_village - 1;
                g.count = if g.count > 0 {
                    g.count - 1
                } else {
                    0
                };
                garrison.set(i, g);
                proof {
                    assert(garrison@ == old(garrison)@.update(i as int, g));
                    assert(is_victim(old(garrison)@, i as int));
                    assert forall|a: int, b: int| 0 <= a < b < garrison@.len() implies #[trigger] garrison@[a].troop_type
                        != #[trigger] garrison@[b].troop_type by {
                        assert(old(garrison)@[a].troop_type != old(garrison)@[b].troop_type);
                    }
                }
                Some(g.troop_type)
            },
        }
    }

    /// Adds `n` troops of kind `t` to the garrison, both to the village and to
    /// what belongs to it; a kind not yet present gets a new entry with upkeep
    /// `upkeep`.
    pub fn add_troops(garrison: &mut Vec<GarrisonEntry>, t: TroopType, n: i64, upkeep: i32)
        requires
            garrison_wf(old(garrison)@),
            0 <= n,
            0 <= upkeep <= MAX_UNIT_UPKEEP,
            forall|i: int| 0 <= i < old(garrison)@.len() ==> #[trigger] old(garrison)@[i].count
                <= i64::MAX - n && old(garrison)@[i].in_village <= i64::MAX - n,
        ensures
            garrison_wf(final(garrison)@),
            garrison_count(final(garrison)@, t) == garrison_count(old(garrison)@, t) + n,
            garrison_present(final(garrison)@, t) == garrison_present(old(garrison)@, t) + n,
            forall|u: TroopType| u != t ==> #[trigger] garrison_count(final(garrison)@, u)
                == garrison_count(old(garrison)@, u) && garrison_present(final(garrison)@, u)
                == garrison_present(old(garrison)@, u),
            old(garrison)@.len() <= final(garrison)@.len() <= old(garrison)@.len() + 1,
            forall|i: int| 0 <= i < old(garrison)@.len() ==> {
                let a = #[trigger] old(garrison)@[i];
                let b = final(garrison)@[i];
                &&& b.troop_type == a.troop_type
                &&& b.troop_type != t ==> b == a
                &&& b.troop_type == t ==> b.count == a.count + n && b.in_village == a.in_village + n
            },
            final(garrison)@.len() > old(garrison)@.len() ==> final(garrison)@.last() == (GarrisonEntry {
                troop_type: t,
                count: n,
                in_village: n,
                crop_consumption: upkeep,
            }),
    {
        let mut i: usize = 0;
        while i < garrison.len()
            invariant
                i <= garrison@.len(),
                garrison@ == old(garrison)@,
                garrison_wf(old(garrison)@),
                0 <= n,
                0 <= upkeep <= MAX_UNIT_UPKEEP,
                forall|k: int| 0 <= k < old(garrison)@.len() ==> #[trigger] old(garrison)@[k].count
                    <= i64::MAX - n && old(garrison)@[k].in_village <= i64::MAX - n,
                forall|j: int| 0 <= j < i ==> #[trigger] garrison@[j].troop_type != t,
            decreases garrison@.len() - i,
        {
            if garrison[i].troop_type == t {
                proof {
                    assert(old(garrison)@[i as int].count <= i64::MAX - n);
                }
                let mut g = garrison[i];
                g.count = g.count + n;
                g.in_village = g.in_village + n;
                garrison.set(i, g);
                proof {
                    lemma_garrison_update(old(garrison)@, i as int, g);
                    assert(garrison@ == old(garrison)@.update(i as int, g));
                    assert forall|a: int, b: int| 0 <= a < b < garrison@.len() implies #[trigger] garrison@[a].troop_type
                        != #[trigger] garrison@[b].troop_type by {
                        assert(old(garrison)@[a].troop_type != old(garrison)@[b].troop_type);
                    }
                }
                return;
            }
            i = i + 1;
        }
        garrison.push(GarrisonEntry { troop_type: t, count: n, in_village: n, crop_consumption: upkeep });
        proof {
            let e = GarrisonEntry { troop_type: t, count: n, in_village: n, crop_consumption: upkeep };
            lemma_garrison_push(old(garrison)@, e);
            assert(garrison@ == old(garrison)@.push(e));
            assert forall|a: int, b: int| 0 <= a < b < garrison@.len() implies #[trigger] garrison@[a].troop_type
                != #[trigger] garrison@[b].troop_type by {
                if b < garrison@.len() - 1 {
                    assert(old(garrison)@[a].troop_type != old(garrison)@[b].troop_type);
                } else {
                    assert(old(garrison)@[a].troop_type != t);
                }
            }
        }
    }

    /// Completes the batch at the head of the queue once it has ended
    /// (`ends_at <= now`): its troops join the garrison and the batch leaves
    /// the queue. Returns the completed batch.
    pub fn complete_training(
        queue: &mut Vec<TrainingEntry>,
        garrison: &mut Vec<GarrisonEntry>,
        definition: &TroopDefinition,
        now: i64,
    ) -> (r: Result<TrainingEntry, GameError>)
        requires
            queue_wf(old(queue)@),
            old(queue)@.len() > 0,
            old(queue)@[0].troop_type == definition.troop_type,
            definition.wf(),
            garrison_wf(old(garrison)@),
            forall|i: int| 0 <= i < old(garrison)@.len() ==> #[trigger] old(garrison)@[i].count
                <= i64::MAX - i32::MAX && old(garrison)@[i].in_village <= i64::MAX - i32::MAX,
        ensures
            queue_wf(final(queue)@),
            garrison_wf(final(garrison)@),
            old(queue)@[0].ends_at > now ==> r == Err::<TrainingEntry, GameError>(GameError::TrainingNotDone)
                && final(queue)@ == old(queue)@ && final(garrison)@ == old(garrison)@,
            old(queue)@[0].ends_at <= now ==> r == Ok::<TrainingEntry, GameError>(old(queue)@[0])
                && final(queue)@ == old(queue)@.drop_first() && garrison_count(
                final(garrison)@,
                definition.troop_type,
            ) == garrison_count(old(garrison)@, definition.troop_type) + old(queue)@[0].count
                && garrison_present(final(garrison)@, definition.troop_type) == garrison_present(
                old(garrison)@,
                definition.troop_type,
            ) + old(queue)@[0].count,
    {
        let head = queue[0];
        if head.ends_at > now {
            return Err(GameError::TrainingNotDone);
        }
        proof {
            assert(queue@[0].wf());
        }
        Self::add_troops(garrison, head.troop_type, head.count as i64, definition.crop_consumption);
        queue.remove(0);
        proof {
            let q = queue@;
            let o = old(queue)@;
            assert(q =~= o.drop_first());
            assert forall|i: int| 0 <= i < q.len() implies (#[trigger] q[i]).wf() by {
                assert(q[i] == o[i + 1]);
            }
            assert forall|i: int| 0 <= i < q.len() - 1 implies #[trigger] q[i].ends_at <= q[i + 1].started_at by {
                assert(q[i] == o[i + 1] && q[i + 1] == o[i + 2]);
            }
        }
        Ok(head)
    }

    /// Materializes the batch at `index` at once, whatever its end instant:
    /// its troops join the garrison and it leaves the queue.
    pub fn finish_batch(
        queue: &mut Vec<TrainingEntry>,
        index: usize,
        garrison: &mut Vec<GarrisonEntry>,
        definition: &TroopDefinition,
    ) -> (r: TrainingEntry)
        requires
            queue_wf(old(queue)@),
            index < old(queue)@.len(),
            old(queue)@[index as int].troop_type == definition.troop_type,
            definition.wf(),
            garrison_wf(old(garrison)@),
            forall|i: int| 0 <= i < old(garrison)@.len() ==> #[trigger] old(garrison)@[i].count
                <= i64::MAX - i32::MAX && old(garrison)@[i].in_village <= i64::MAX - i32::MAX,
        ensures
            r == old(queue)@[index as int],
            queue_wf(final(queue)@),
            garrison_wf(final(garrison)@),
            final(queue)@ == old(queue)@.remove(index as int),
            garrison_count(final(garrison)@, definition.troop_type) == garrison_count(
                old(garrison)@,
                definition.troop_type,
            ) + r.count,
            garrison_present(final(garrison)@, definition.troop_type) == garrison_present(
                old(garrison)@,
                definition.troop_type,
            ) + r.count,
    {
        let entry = queue[index];
        proof {
            assert(queue@[index as int].wf());
        }
        Self::add_troops(garrison, entry.troop_type, entry.count as i64, definition.crop_consumption);
        queue.remove(index);
        proof {
            let q = queue@;
            let o = old(queue)@;
            assert forall|i: int| 0 <= i < q.len() implies (#[trigger] q[i]).wf() by {
                if i < index {
                    assert(q[i] == o[i]);
                } else {
                    assert(q[i] == o[i + 1]);
                }
            }
            assert forall|i: int| 0 <= i < q.len() - 1 implies #[trigger] q[i].ends_at <= q[i + 1].started_at by {
                if i + 1 < index {
                    assert(q[i] == o[i] && q[i + 1] == o[i + 1]);
                } else if i >= index {
                    assert(q[i] == o[i + 1] && q[i + 1] == o[i + 2]);
                } else {
                    assert(q[i] == o[i] && q[i + 1] == o[i + 2]);
                    assert(o[i + 1].wf());
                }
            }
        }
        entry
    }

    /// Sends `n` troops of kind `t` out of the village, as an army leaves:
    /// they leave both the village and the garrison. Refused unless `n` is
    /// positive and at least `n` of them are in the village.
    pub fn withdraw_troops(garrison: &mut Vec<GarrisonEntry>, t: TroopType, n: i64) -> (r: Result<(), GameError>)
        requires
            garrison_wf(old(garrison)@),
            forall|i: int| 0 <= i < old(garrison)@.len() ==> #[trigger] old(garrison)@[i].in_village
                <= old(garrison)@[i].count,
        ensures
            garrison_wf(final(garrison)@),
            forall|i: int| 0 <= i < final(garrison)@.len() ==> #[trigger] final(garrison)@[i].in_village
                <= final(garrison)@[i].count,
            n <= 0 ==> r == Err::<(), GameError>(GameError::NonPositiveCount),
            n > 0 ==> (r is Ok <==> garrison_present(old(garrison)@, t) >= n),
            n > 0 && garrison_present(old(garrison)@, t) < n ==> r == Err::<(), GameError>(
                GameError::InsufficientTroops,
            ),
            r is Err ==> final(garrison)@ == old(garrison)@,
            r is Ok ==> garrison_present(final(garrison)@, t) == garrison_present(old(garrison)@, t) - n
                && garrison_count(final(garrison)@, t) == garrison_count(old(garrison)@, t) - n
                && forall|u: TroopType| u != t ==> #[trigger] garrison_count(final(garrison)@, u)
                == garrison_count(old(garrison)@, u) && garrison_present(final(garrison)@, u)
                == garrison_present(old(garrison)@, u),
    {
        if n <= 0 {
            return Err(GameError::NonPositiveCount);
        }
        let mut i: usize = 0;
        while i < garrison.len()
            invariant
                i <= garrison@.len(),
                garrison@ == old(garrison)@,
                garrison_wf(old(garrison)@),
                forall|k: int| 0 <= k < old(garrison)@.len() ==> #[trigger] old(garrison)@[k].in_village
                    <= old(garrison)@[k].count,
                n > 0,
                forall|j: int| 0 <= j < i ==> #[trigger] garrison@[j].troop_type != t,
            decreases garrison@.len() - i,
        {
            if garrison[i].troop_type == t {
                proof {
                    lemma_present_is_entry(old(garrison)@, i as int);
                }
                let mut g = garrison[i];
                if g.in_village < n {
                    return Err(GameError::InsufficientTroops);
                }
                proof {
                    assert(old(garrison)@[i as int].in_village <= old(garrison)@[i as int].count);
                }
                g.in_village = g.in_village - n;
                g.count = g.count - n;
                garrison.set(i, g);
                proof {
                    lemma_garrison_update(old(garrison)@, i as int, g);
                    assert(garrison@ == old(garrison)@.update(i as int, g));
                    assert forall|a: int, b: int| 0 <= a < b < garrison@.len() implies #[trigger] garrison@[a].troop_type
                        != #[trigger] garrison@[b].troop_type by {
                        assert(old(garrison)@[a].troop_type != old(garrison)@[b].troop_type);
                    }
                    assert forall|k: int| 0 <= k < garrison@.len() implies #[trigger] garrison@[k].in_village
                        <= garrison@[k].count by {
                        if k != i {
                            assert(garrison@[k] == old(garrison)@[k]);
                        }
                    }
                }
                return Ok(());
            }
            i = i + 1;
        }
        proof {
            lemma_present_absent(old(garrison)@, t);
        }
        Err(GameError::InsufficientTroops)
    }
}

/// In a garrison without repeated kinds, what is present of the kind at
/// index `i` is that entry's own count in the village.
proof fn lemma_present_is_entry(g: Seq<GarrisonEntry>, i: int)
    requires
        garrison_wf(g),
        0 <= i < g.len(),
    ensures
        garrison_present(g, g[i].troop_type) == g[i].in_village,
    decreases g.len(),
{
    let t = g[i].troop_type;
    let init = g.drop_last();
    assert(garrison_wf(init)) by {
        assert forall|a: int| 0 <= a < init.len() implies 0 <= (#[trigger] init[a]).in_village && 0 <= init[a].count
            && 0 <= init[a].crop_consumption <= MAX_UNIT_UPKEEP by {
            assert(init[a] == g[a]);
        }
        assert forall|a: int, b: int| 0 <= a < b < init.len() implies #[trigger] init[a].troop_type
            != #[trigger] init[b].troop_type by {
            assert(init[a] == g[a] && init[b] == g[b]);
        }
    }
    if i == g.len() - 1 {
        assert forall|k: int| 0 <= k < init.len() implies #[trigger] init[k].troop_type != t by {
            assert(init[k] == g[k]);
        }
        lemma_present_absent(init, t);
    } else {
        assert(init[i] == g[i]);
        lemma_present_is_entry(init, i);
        assert(g.last() == g[g.len() - 1]);
        assert(g[i].troop_type != g[g.len() - 1].troop_type);
    }
}

/// A kind that no entry holds has nothing present.
proof fn lemma_present_absent(g: Seq<GarrisonEntry>, t: TroopType)
    requires
        forall|k: int| 0 <= k < g.len() ==> #[trigger] g[k].troop_type != t,
    ensures
        garrison_present(g, t) == 0,
    decreases g.len(),
{
    if g.len() > 0 {
        let init = g.drop_last();
        assert forall|k: int| 0 <= k < init.len() implies #[trigger] init[k].troop_type != t by {
            assert(init[k] == g[k]);
        }
        assert(g.last() == g[g.len() - 1]);
        lemma_present_absent(init, t);
    }
}

} // verus!
