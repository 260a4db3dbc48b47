//! The army engine: travel time of a movement, troops leaving on dispatch,
//! and the arrival of reinforcements and returning armies.
use vstd::prelude::*;
use crate::production::{MAX_INSTANT, VillageStock};
use crate::resources::{Resources, TradeResourceType};
use crate::troops::{
    GarrisonEntry, MAX_UNIT_UPKEEP, TroopService, TroopType, garrison_count, garrison_present, garrison_wf,
};

verus! {

/// Most units of one kind in one movement.
pub const MAX_ARMY_UNITS: i64 = 0x100_0000_0000;

/// Most units of one kind that a garrison may hold before an arrival.
pub const MAX_GARRISON_UNITS: i64 = 0x1000_0000_0000_0000;

/// Most kinds of troop in one movement.
pub const MAX_ARMY_KINDS: usize = 16;

/// Largest map coordinate, in either direction.
pub const MAP_LIMIT: i32 = 1_000_000;

#[derive(Debug, Clone, Copy, PartialEq, Eq, Structural)]
pub enum Mission {
    Attack,
    Raid,
    Reinforce,
    Return,
}

impl Mission {
    pub open spec fn spec_is_hostile(self) -> bool {
        self == Mission::Attack || self == Mission::Raid
    }

    /// Whether a movement with this mission threatens the village it heads to.
    pub fn is_hostile(&self) -> (r: bool)
        ensures
            r == self.spec_is_hostile(),
    {
        match self {
            Mission::Attack | Mission::Raid => true,
            _ => false,
        }
    }
}

/// Units of one kind in a movement, with the crop each eats an hour.
#[derive(Debug, Clone, Copy, PartialEq, Eq, Structural)]
pub struct TroopCount {
    pub troop_type: TroopType,
    pub count: i64,
    pub crop_consumption: i32,
}

/// Troops on their way from one village to another; instants in
/// milliseconds since the epoch.
#[derive(Debug)]
pub struct ArmyMovement {
    pub id: u128,
    pub source_village_id: u128,
    pub destination_village_id: u128,
    pub troops: Vec<TroopCount>,
    pub mission: Mission,
    pub dispatched_at: i64,
    pub arrives_at: i64,
    /// Resources carried home by a returning army.
    pub carried: Resources,
}

/// The smallest `r` with `r · r >= n`.
pub open spec fn is_ceil_sqrt(n: int, r: int) -> bool {
    r >= 0 && r * r >= n && (r == 0 || (r - 1) * (r - 1) < n)
}

/// Milliseconds to cover `distance` tiles at `speed` tiles an hour, rounded up.
pub open spec fn travel_ms(distance: int, speed: int) -> int {
    (distance * 3_600_000 + speed - 1) / speed
}

/// Units of kind `u` in a list of troop counts.
pub open spec fn army_units(troops: Seq<TroopCount>, u: TroopType) -> int
    decreases troops.len(),
{
    if troops.len() == 0 {
        0
    } else {
        army_units(troops.drop_last(), u) + if troops.last().troop_type == u {
            troops.last().count as int
        } else {
            0
        }
    }
}

/// Every entry of the garrison holds at most `b` units, both in total and in the village.
pub open spec fn bounded_by(g: Seq<GarrisonEntry>, b: int) -> bool {
    forall|i: int| 0 <= i < g.len() ==> #[trigger] g[i].count <= b && g[i].in_village <= b
}

/// The army engine's operations.
pub struct ArmyService;

impl ArmyService {
    /// The Euclidean distance between two cells, in tiles, rounded up.
    pub fn distance(x1: i32, y1: i32, x2: i32, y2: i32) -> (r: i64)
        requires
            -MAP_LIMIT <= x1 <= MAP_LIMIT,
            -MAP_LIMIT <= y1 <= MAP_LIMIT,
            -MAP_LIMIT <= x2 <= MAP_LIMIT,
            -MAP_LIMIT <= y2 <= MAP_LIMIT,
        ensures
            is_ceil_sqrt((x1 - x2) * (x1 - x2) + (y1 - y2) * (y1 - y2), r as int),
            0 <= r <= 3_000_000,
    {
        let dx = x1 as i64 - x2 as i64;
        let dy = y1 as i64 - y2 as i64;
        proof {
            assert(0 <= dx * dx <= 4_000_000_000_000) by (nonlinear_arith)
                requires
                    -2_000_000 <= dx <= 2_000_000,
            ;
            assert(0 <= dy * dy <= 4_000_000_000_000) by (nonlinear_arith)
                requires
                    -2_000_000 <= dy <= 2_000_000,
            ;
        }
        let n = dx * dx + dy * dy;
        // Search for the smallest r in [lo, hi] with r·r >= n.
        let mut lo: i64 = 0;
        let mut hi: i64 = 3_000_000;
        proof {
            assert(hi * hi >= n) by (nonlinear_arith)
                requires
                    hi == 3_000_000,
                    n <= 8_000_000_000_000,
            ;
        }
        while lo < hi
            invariant
                0 <= lo <= hi <= 3_000_000,
                0 <= n <= 8_000_000_000_000,
                hi * hi >= n,
                lo == 0 || (lo - 1) * (lo - 1) < n,
            decreases hi - lo,
        {
            let mid = lo + (hi - lo) / 2;
            proof {
                assert(0 <= mid * mid <= 9_000_000_000_000) by (nonlinear_arith)
                    requires
                        0 <= mid <= 3_000_000,
                ;
            }
            if mid * mid >= n {
                hi = mid;
            } else {
                lo = mid + 1;
            }
        }
        lo
    }

    /// When an army dispatched at `dispatched_at` arrives: the distance at
    /// the speed of its slowest troop, in tiles an hour, rounded up to the
    /// millisecond.
    pub fn arrival_time(dispatched_at: i64, distance: i64, slowest_speed: i64) -> (r: i64)
        requires
            0 <= distance <= 3_000_000,
            1 <= slowest_speed,
            dispatched_at <= MAX_INSTANT,
        ensures
            r == dispatched_at + travel_ms(distance as int, slowest_speed as int),
            r >= dispatched_at,
    {
        proof {
            assert(0 <= distance * 3_600_000 <= 3_000_000 * 3_600_000) by (nonlinear_arith)
                requires
                    0 <= distance <= 3_000_000,
            ;
        }
        let num = distance as i128 * 3_600_000 + slowest_speed as i128 - 1;
        let t = num / slowest_speed as i128;
        proof {
            let sp = slowest_speed as int;
            let d = distance * 3_600_000;
            vstd::arithmetic::div_mod::lemma_fundamental_div_mod(num as int, sp);
            vstd::arithmetic::div_mod::lemma_mod_bound(num as int, sp);
            vstd::arithmetic::div_mod::lemma_div_pos_is_pos(num as int, sp);
            let q = num as int / sp;
            assert(q <= d + 1) by (nonlinear_arith)
                requires
                    num == sp * q + num as int % sp,
                    0 <= num as int % sp,
                    num == d + sp - 1,
                    sp >= 1,
                    d >= 0,
            ;
        }
        dispatched_at + t as i64
    }

    /// Resolves the arrival of reinforcements or of a returning army at
    /// `garrison`, the garrison of the village it reaches: every troop count
    /// of the movement joins it, and a returning army's cargo goes into the
    /// village's stock, held by storage. The movement is consumed, so it
    /// takes effect once.
    pub fn arrive(movement: ArmyMovement, garrison: &mut Vec<GarrisonEntry>, stock: &mut VillageStock)
        requires
            movement.mission == Mission::Reinforce || movement.mission == Mission::Return,
            movement.troops@.len() <= MAX_ARMY_KINDS,
            forall|i: int| 0 <= i < movement.troops@.len() ==> 0 <= (#[trigger] movement.troops@[i]).count
                <= MAX_ARMY_UNITS && 0 <= movement.troops@[i].crop_consumption <= MAX_UNIT_UPKEEP,
            garrison_wf(old(garrison)@),
            bounded_by(old(garrison)@, MAX_GARRISON_UNITS as int),
            old(stock).wf(),
            0 <= movement.carried.wood && 0 <= movement.carried.clay && 0 <= movement.carried.iron
                && 0 <= movement.carried.crop,
        ensures
            garrison_wf(final(garrison)@),
            forall|u: TroopType| #[trigger] garrison_count(final(garrison)@, u) == garrison_count(old(garrison)@, u)
                + army_units(movement.troops@, u),
            forall|u: TroopType| #[trigger] garrison_present(final(garrison)@, u) == garrison_present(
                old(garrison)@,
                u,
            ) + army_units(movement.troops@, u),
            final(stock).wf(),
            movement.mission == Mission::Reinforce ==> *final(stock) == *old(stock),
            movement.mission == Mission::Return ==> *final(stock) == old(stock).deposit(
                TradeResourceType::Wood,
                movement.carried.wood as int,
            ).deposit(TradeResourceType::Clay, movement.carried.clay as int).deposit(
                TradeResourceType::Iron,
                movement.carried.iron as int,
            ).deposit(TradeResourceType::Crop, movement.carried.crop as int),
    {
        let mut k: usize = 0;
        while k < movement.troops.len()
            invariant
                k <= movement.troops@.len() <= MAX_ARMY_KINDS,
                forall|i: int| 0 <= i < movement.troops@.len() ==> 0 <= (#[trigger] movement.troops@[i]).count
                    <= MAX_ARMY_UNITS && 0 <= movement.troops@[i].crop_consumption <= MAX_UNIT_UPKEEP,
                garrison_wf(garrison@),
                bounded_by(garrison@, MAX_GARRISON_UNITS + k * MAX_ARMY_UNITS),
                forall|u: TroopType| #[trigger] garrison_count(garrison@, u) == garrison_count(old(garrison)@, u)
                    + army_units(movement.troops@.take(k as int), u),
                forall|u: TroopType| #[trigger] garrison_present(garrison@, u) == garrison_present(
                    old(garrison)@,
                    u,
                ) + army_units(movement.troops@.take(k as int), u),
                *stock == *old(stock),
            decreases movement.troops@.len() - k,
        {
            let c = movement.troops[k];
            let ghost before = garrison@;
            TroopService::add_troops(garrison, c.troop_type, c.count, c.crop_consumption);
            proof {
                let tk = movement.troops@.take(k + 1);
                assert(tk.drop_last() =~= movement.troops@.take(k as int));
                assert(tk.last() == c);
                assert forall|u: TroopType| #[trigger] garrison_count(garrison@, u) == garrison_count(old(garrison)@, u)
                    + army_units(tk, u) by {
                    assert(garrison_count(before, u) == garrison_count(old(garrison)@, u) + army_units(movement.troops@.take(k as int), u));
                }
                assert forall|u: TroopType| #[trigger] garrison_present(garrison@, u) == garrison_present(old(garrison)@, u)
                    + army_units(tk, u) by {
                    assert(garrison_present(before, u) == garrison_present(old(garrison)@, u) + army_units(movement.troops@.take(k as int), u));
                    assert(garrison_count(garrison@, u) == garrison_count(before, u) + if u == c.troop_type {
                        c.count as int
                    } else {
                        0
                    });
                }
                let b = MAX_GARRISON_UNITS + k * MAX_ARMY_UNITS;
                assert forall|i: int| 0 <= i < garrison@.len() implies #[trigger] garrison@[i].count
                    <= b + MAX_ARMY_UNITS && garrison@[i].in_village <= b + MAX_ARMY_UNITS by {
                    if i < before.len() {
                        assert(before[i].count <= b && before[i].in_village <= b);
                    }
                }
            }
            k = k + 1;
        }
        proof {
            assert(movement.troops@.take(movement.troops@.len() as int) =~= movement.troops@);
        }
        if movement.mission == Mission::Return {
            stock.add_capped(TradeResourceType::Wood, movement.carried.wood as i64);
            stock.add_capped(TradeResourceType::Clay, movement.carried.clay as i64);
            stock.add_capped(TradeResourceType::Iron, movement.carried.iron as i64);
            stock.add_capped(TradeResourceType::Crop, movement.carried.crop as i64);
        }
    }
}

} // verus!
