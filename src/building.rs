//! Building kinds and their fixed tables: prerequisites, population, costs,
//! field yields and storage capacities.
use vstd::prelude::*;
use vstd::arithmetic::power::{pow, lemma_pow_adds, lemma_pow_increases, lemma_pow_positive};

verus! {

/// The kinds of building: town buildings, then the four resource fields.
#[derive(Debug, Clone, Copy, PartialEq, Eq, Structural)]
pub enum BuildingType {
    MainBuilding,
    Warehouse,
    Granary,
    Barracks,
    Stable,
    Workshop,
    Academy,
    Smithy,
    RallyPoint,
    Market,
    Embassy,
    TownHall,
    Residence,
    Palace,
    Treasury,
    TradeOffice,
    Wall,
    Woodcutter,
    ClayPit,
    IronMine,
    CropField,
}

/// A building of `building_type` at `min_level` or higher must exist.
#[derive(Debug, Clone, Copy, PartialEq, Eq, Structural)]
pub struct BuildingPrerequisite {
    pub building_type: BuildingType,
    pub min_level: i32,
}

/// Resources and build time of one level of a building.
#[derive(Debug, Clone, Copy, PartialEq, Eq, Structural)]
pub struct BuildingCost {
    pub wood: i32,
    pub clay: i32,
    pub iron: i32,
    pub crop: i32,
    pub time_seconds: i32,
}

/// A building standing in a slot of a village.
#[derive(Debug, Clone, Copy, PartialEq, Eq, Structural)]
pub struct Building {
    pub id: u128,
    pub village_id: u128,
    pub building_type: BuildingType,
    pub slot: i32,
    pub level: i32,
    pub is_upgrading: bool,
    /// Instant, in milliseconds since the epoch, at which the upgrade in flight ends.
    pub upgrade_ends_at: Option<i64>,
}

impl Building {
    /// A level within range, and an end instant exactly while an upgrade is in flight.
    pub open spec fn wf(self) -> bool {
        &&& 0 <= self.level <= MAX_BUILDING_LEVEL
        &&& self.is_upgrading == self.upgrade_ends_at.is_some()
        &&& self.is_upgrading ==> self.level < MAX_BUILDING_LEVEL
    }
}

/// Every building of the sequence is well formed.
pub open spec fn all_wf(bs: Seq<Building>) -> bool {
    forall|i: int| 0 <= i < bs.len() ==> (#[trigger] bs[i]).wf()
}

/// The most buildings a village holds: 22 town slots and 18 field slots.
pub const MAX_BUILDINGS: usize = 40;

/// The highest level of every building kind.
pub const MAX_BUILDING_LEVEL: i32 = 20;

/// Storage of a village before any warehouse or granary.
pub const BASE_STORAGE: i32 = 800;

impl BuildingType {
    pub open spec fn spec_is_resource_field(self) -> bool {
        match self {
            BuildingType::Woodcutter | BuildingType::ClayPit | BuildingType::IronMine
            | BuildingType::CropField => true,
            _ => false,
        }
    }

    /// The snake-case name under which the store keeps this kind.
    pub open spec fn spec_name(self) -> Seq<char> {
        match self {
            BuildingType::MainBuilding => "main_building"@,
            BuildingType::Warehouse => "warehouse"@,
            BuildingType::Granary => "granary"@,
            BuildingType::Barracks => "barracks"@,
            BuildingType::Stable => "stable"@,
            BuildingType::Workshop => "workshop"@,
            BuildingType::Academy => "academy"@,
            BuildingType::Smithy => "smithy"@,
            BuildingType::RallyPoint => "rally_point"@,
            BuildingType::Market => "market"@,
            BuildingType::Embassy => "embassy"@,
            BuildingType::TownHall => "town_hall"@,
            BuildingType::Residence => "residence"@,
            BuildingType::Palace => "palace"@,
            BuildingType::Treasury => "treasury"@,
            BuildingType::TradeOffice => "trade_office"@,
            BuildingType::Wall => "wall"@,
            BuildingType::Woodcutter => "woodcutter"@,
            BuildingType::ClayPit => "clay_pit"@,
            BuildingType::IronMine => "iron_mine"@,
            BuildingType::CropField => "crop_field"@,
        }
    }

    /// The prerequisite table.
    pub open spec fn spec_prerequisites(self) -> Seq<BuildingPrerequisite> {
        match self {
            BuildingType::MainBuilding => seq![],
            BuildingType::Warehouse => seq![BuildingPrerequisite { building_type: BuildingType::MainBuilding, min_level: 1 }],
            BuildingType::Granary => seq![BuildingPrerequisite { building_type: BuildingType::MainBuilding, min_level: 1 }],
            BuildingType::Barracks => seq![BuildingPrerequisite { building_type: BuildingType::MainBuilding, min_level: 3 }, BuildingPrerequisite { building_type: BuildingType::RallyPoint, min_level: 1 }],
            BuildingType::Stable => seq![BuildingPrerequisite { building_type: BuildingType::Smithy, min_level: 3 }, BuildingPrerequisite { building_type: BuildingType::Academy, min_level: 5 }],
            BuildingType::Workshop => seq![BuildingPrerequisite { building_type: BuildingType::MainBuilding, min_level: 5 }, BuildingPrerequisite { building_type: BuildingType::Academy, min_level: 10 }],
            BuildingType::Academy => seq![BuildingPrerequisite { building_type: BuildingType::MainBuilding, min_level: 3 }, BuildingPrerequisite { building_type: BuildingType::Barracks, min_level: 3 }],
            BuildingType::Smithy => seq![BuildingPrerequisite { building_type: BuildingType::MainBuilding, min_level: 3 }, BuildingPrerequisite { building_type: BuildingType::Barracks, min_level: 1 }],
            BuildingType::RallyPoint => seq![],
            BuildingType::Market => seq![BuildingPrerequisite { building_type: BuildingType::MainBuilding, min_level: 1 }, BuildingPrerequisite { building_type: BuildingType::Warehouse, min_level: 1 }, BuildingPrerequisite { building_type: BuildingType::Granary, min_level: 1 }],
            BuildingType::Embassy => seq![BuildingPrerequisite { building_type: BuildingType::MainBuilding, min_level: 1 }],
            BuildingType::TownHall => seq![BuildingPrerequisite { building_type: BuildingType::MainBuilding, min_level: 10 }, BuildingPrerequisite { building_type: BuildingType::Academy, min_level: 10 }],
            BuildingType::Residence => seq![BuildingPrerequisite { building_type: BuildingType::MainBuilding, min_level: 5 }],
            BuildingType::Palace => seq![BuildingPrerequisite { building_type: BuildingType::MainBuilding, min_level: 5 }, BuildingPrerequisite { building_type: BuildingType::Embassy, min_level: 1 }],
            BuildingType::Treasury => seq![BuildingPrerequisite { building_type: BuildingType::MainBuilding, min_level: 10 }],
            BuildingType::TradeOffice => seq![BuildingPrerequisite { building_type: BuildingType::Stable, min_level: 10 }, BuildingPrerequisite { building_type: BuildingType::Market, min_level: 20 }],
            BuildingType::Wall => seq![],
            BuildingType::Woodcutter => seq![],
            BuildingType::ClayPit => seq![],
            BuildingType::IronMine => seq![],
            BuildingType::CropField => seq![],
        }
    }

    /// Population of a building of this kind at level one.
    pub open spec fn base_population(self) -> int {
        match self {
            BuildingType::MainBuilding => 2,
            BuildingType::Warehouse => 1,
            BuildingType::Granary => 1,
            BuildingType::Barracks => 4,
            BuildingType::Stable => 5,
            BuildingType::Workshop => 6,
            BuildingType::Academy => 4,
            BuildingType::Smithy => 4,
            BuildingType::RallyPoint => 1,
            BuildingType::Market => 4,
            BuildingType::Embassy => 3,
            BuildingType::TownHall => 4,
            BuildingType::Residence => 1,
            BuildingType::Palace => 1,
            BuildingType::Treasury => 4,
            BuildingType::TradeOffice => 6,
            BuildingType::Wall => 0,
            BuildingType::Woodcutter => 2,
            BuildingType::ClayPit => 2,
            BuildingType::IronMine => 3,
            BuildingType::CropField => 0,
        }
    }

    /// Population of a building of this kind at `level`; nothing at level zero,
    /// and one more for every five levels above the first.
    pub open spec fn spec_population_at_level(self, level: int) -> int {
        if level == 0 {
            0
        } else {
            self.base_population() + (level - 1) / 5
        }
    }

    /// Cost of the first level of this kind.
    pub open spec fn spec_base_cost(self) -> BuildingCost {
        match self {
            BuildingType::MainBuilding => BuildingCost { wood: 70, clay: 40, iron: 60, crop: 20, time_seconds: 300 },
            BuildingType::Warehouse => BuildingCost { wood: 130, clay: 160, iron: 90, crop: 40, time_seconds: 400 },
            BuildingType::Granary => BuildingCost { wood: 80, clay: 100, iron: 70, crop: 20, time_seconds: 350 },
            BuildingType::Barracks => BuildingCost { wood: 210, clay: 140, iron: 260, crop: 120, time_seconds: 600 },
            BuildingType::RallyPoint => BuildingCost { wood: 110, clay: 160, iron: 90, crop: 70, time_seconds: 250 },
            BuildingType::Market => BuildingCost { wood: 80, clay: 70, iron: 120, crop: 70, time_seconds: 400 },
            BuildingType::Woodcutter => BuildingCost { wood: 40, clay: 100, iron: 50, crop: 60, time_seconds: 260 },
            BuildingType::ClayPit => BuildingCost { wood: 80, clay: 40, iron: 80, crop: 50, time_seconds: 220 },
            BuildingType::IronMine => BuildingCost { wood: 100, clay: 80, iron: 30, crop: 60, time_seconds: 450 },
            BuildingType::CropField => BuildingCost { wood: 70, clay: 90, iron: 70, crop: 20, time_seconds: 150 },
            _ => BuildingCost { wood: 100, clay: 100, iron: 100, crop: 50, time_seconds: 300 },
        }
    }
}

/// Hourly yield of a resource field at `level`: 3 · 1.63^(level−1) · 1.0034^((level−1)²),
/// rounded down.
pub open spec fn field_yield(level: int) -> int {
    if level == 0 {
        1
    } else if level == 1 {
        3
    } else if level == 2 {
        4
    } else if level == 3 {
        8
    } else if level == 4 {
        13
    } else if level == 5 {
        22
    } else if level == 6 {
        37
    } else if level == 7 {
        63
    } else if level == 8 {
        108
    } else if level == 9 {
        185
    } else if level == 10 {
        320
    } else if level == 11 {
        557
    } else if level == 12 {
        976
    } else if level == 13 {
        1720
    } else if level == 14 {
        3052
    } else if level == 15 {
        5453
    } else if level == 16 {
        9808
    } else if level == 17 {
        17761
    } else if level == 18 {
        32383
    } else if level == 19 {
        59443
    } else {
        109858
    }
}

/// ⌊v · (n/d)^e⌋.
pub open spec fn scaled(v: int, n: int, d: int, e: nat) -> int {
    v * pow(n, e) / pow(d, e)
}

/// One field of a level's cost: ⌊v · 1.28^(level−1)⌋, that is ⌊v · 25/32⌋ at level zero.
pub open spec fn cost_scaled(v: int, level: int) -> int {
    if level <= 0 {
        v * 25 / 32
    } else {
        scaled(v, 32, 25, (level - 1) as nat)
    }
}

impl BuildingType {
    /// The cost of reaching `level`: the first level's cost times 1.28^(level−1),
    /// each field rounded down.
    pub open spec fn spec_cost_at_level(self, level: int) -> BuildingCost {
        let b = self.spec_base_cost();
        BuildingCost {
            wood: cost_scaled(b.wood as int, level) as i32,
            clay: cost_scaled(b.clay as int, level) as i32,
            iron: cost_scaled(b.iron as int, level) as i32,
            crop: cost_scaled(b.crop as int, level) as i32,
            time_seconds: cost_scaled(b.time_seconds as int, level) as i32,
        }
    }

    /// Hourly yield of a building of this kind at `level`; zero but for resource fields.
    pub open spec fn spec_production_per_hour(self, level: int) -> int {
        if self.spec_is_resource_field() {
            field_yield(level)
        } else {
            0
        }
    }

    /// Storage that a building of this kind adds at `level`: ⌊400 · 1.2^level⌋ for
    /// warehouses and granaries, the base storage at level zero, zero otherwise.
    pub open spec fn spec_storage_capacity(self, level: int) -> int {
        if level == 0 {
            BASE_STORAGE as int
        } else if self == BuildingType::Warehouse || self == BuildingType::Granary {
            scaled(400, 6, 5, level as nat)
        } else {
            0
        }
    }
}

pub proof fn lemma_pow_base_le(a: nat, b: nat, e: nat)
    requires
        1 <= a <= b,
    ensures
        pow(a as int, e) <= pow(b as int, e),
    decreases e,
{
    reveal(pow);
    if e > 0 {
        lemma_pow_base_le(a, b, (e - 1) as nat);
        lemma_pow_positive(a as int, (e - 1) as nat);
        let x = pow(a as int, (e - 1) as nat);
        let y = pow(b as int, (e - 1) as nat);
        assert(a * x <= b * y) by (nonlinear_arith)
            requires
                1 <= a <= b,
                0 < x <= y,
        ;
    }
}

/// For b ≤ a, the ratio (a/b)^e grows with e.
proof fn lemma_ratio_grows(a: nat, b: nat, i: nat, n: nat)
    requires
        1 <= b <= a,
        i <= n,
    ensures
        pow(a as int, i) * pow(b as int, n) <= pow(a as int, n) * pow(b as int, i),
{
    let k = (n - i) as nat;
    lemma_pow_adds(a as int, i, k);
    lemma_pow_adds(b as int, i, k);
    lemma_pow_base_le(b, a, k);
    lemma_pow_positive(a as int, i);
    lemma_pow_positive(b as int, i);
    let x = pow(a as int, i);
    let y = pow(b as int, i);
    let p = pow(b as int, k);
    let q = pow(a as int, k);
    assert(x * (y * p) <= (x * q) * y) by (nonlinear_arith)
        requires
            p <= q,
            x > 0,
            y > 0,
    ;
}

/// (n/d)^e ≤ bound when it holds at the largest exponent `top`.
proof fn lemma_ratio_bound(n: nat, d: nat, e: nat, top: nat, bound: int)
    requires
        1 <= d <= n,
        e <= top,
        pow(n as int, top) <= bound * pow(d as int, top),
    ensures
        pow(n as int, e) <= bound * pow(d as int, e),
{
    lemma_ratio_grows(n, d, e, top);
    lemma_pow_positive(d as int, top);
    lemma_pow_positive(d as int, e);
    let x = pow(n as int, e);
    let y = pow(d as int, e);
    let c = pow(d as int, top);
    let t = pow(n as int, top);
    assert(x <= bound * y) by (nonlinear_arith)
        requires
            x * c <= t * y,
            t <= bound * c,
            c > 0,
            y > 0,
    ;
}

/// ⌊v · (n/d)^e⌋ ≤ v · bound when (n/d)^e ≤ bound.
proof fn lemma_scaled_le(v: nat, n: int, d: int, e: nat, bound: nat)
    requires
        d >= 1,
        pow(n, e) <= bound * pow(d, e),
    ensures
        scaled(v as int, n, d, e) <= v * bound,
{
    lemma_pow_positive(d, e);
    let x = v * pow(n, e);
    let y = pow(d, e);
    assert(x <= (v * bound) * y) by (nonlinear_arith)
        requires
            pow(n, e) <= bound * y,
            x == v * pow(n, e),
            v >= 0,
    ;
    vstd::arithmetic::div_mod::lemma_div_is_ordered(x, (v * bound) * y, y);
    vstd::arithmetic::div_mod::lemma_div_by_multiple((v * bound) as int, y);
}

/// Every field of a level's cost lies within `[0, 109 · v]` for a first-level value `v`.
pub proof fn lemma_scale_cost_bounds(v: int, level: int)
    requires
        0 <= v <= 1000,
        0 <= level <= MAX_BUILDING_LEVEL,
    ensures
        0 <= cost_scaled(v, level) <= 109 * v,
{
    if level > 0 {
        let e = (level - 1) as nat;
        assert(pow(32, 19) <= 109 * pow(25, 19)) by {
            reveal_with_fuel(pow, 20);
        }
        lemma_ratio_bound(32, 25, e, 19, 109);
        lemma_scaled_le(v as nat, 32, 25, e, 109);
        lemma_pow_positive(32, e);
        lemma_pow_positive(25, e);
        assert(0 <= v * pow(32, e)) by (nonlinear_arith)
            requires
                v >= 0,
                pow(32, e) > 0,
        ;
        vstd::arithmetic::div_mod::lemma_div_pos_is_pos(v * pow(32, e), pow(25, e));
    }
}

/// Every field of a level's cost is non-negative and fits an `i32`.
pub proof fn lemma_cost_nonneg(t: BuildingType, level: int)
    requires
        0 <= level <= MAX_BUILDING_LEVEL,
    ensures
        0 <= t.spec_cost_at_level(level).wood <= 109 * 600,
        0 <= t.spec_cost_at_level(level).clay <= 109 * 600,
        0 <= t.spec_cost_at_level(level).iron <= 109 * 600,
        0 <= t.spec_cost_at_level(level).crop <= 109 * 600,
        0 <= t.spec_cost_at_level(level).time_seconds <= 109 * 600,
{
    let b = t.spec_base_cost();
    lemma_scale_cost_bounds(b.wood as int, level);
    lemma_scale_cost_bounds(b.clay as int, level);
    lemma_scale_cost_bounds(b.iron as int, level);
    lemma_scale_cost_bounds(b.crop as int, level);
    lemma_scale_cost_bounds(b.time_seconds as int, level);
}

/// Computes ⌊v · (n/d)^e⌋ exactly.
fn scale_pow(v: u128, n: u128, d: u128, e: u32) -> (r: u128)
    requires
        v <= 1000,
        1 <= d <= n <= 32,
        e <= 20,
    ensures
        r == scaled(v as int, n as int, d as int, e as nat),
{
    assert(pow(32, 20) == 0x10000000000000000000000000) by {
        reveal_with_fuel(pow, 21);
    }
    proof {
        reveal(pow);
    }
    let mut num: u128 = 1;
    let mut den: u128 = 1;
    let mut i: u32 = 0;
    while i < e
        invariant
            i <= e <= 20,
            1 <= d <= n <= 32,
            num == pow(n as int, i as nat),
            den == pow(d as int, i as nat),
            pow(32, 20) == 0x10000000000000000000000000,
        decreases e - i,
    {
        proof {
            let j = (i + 1) as nat;
            lemma_pow_base_le(n as nat, 32, j);
            lemma_pow_base_le(d as nat, n as nat, j);
            lemma_pow_increases(32, j, 20);
            reveal(pow);
            assert(pow(n as int, j) == n * pow(n as int, i as nat));
            assert(pow(d as int, j) == d * pow(d as int, i as nat));
        }
        num = num * n;
        den = den * d;
        i = i + 1;
    }
    proof {
        lemma_pow_base_le(n as nat, 32, e as nat);
        lemma_pow_increases(32, e as nat, 20);
        lemma_pow_positive(d as int, e as nat);
        assert(v * num <= 1000 * 0x10000000000000000000000000) by (nonlinear_arith)
            requires
                v <= 1000,
                num <= 0x10000000000000000000000000,
        ;
    }
    v * num / den
}

/// One field of a level's cost, computed exactly.
fn scale_cost(v: i32, level: i32) -> (r: i32)
    requires
        0 <= v <= 1000,
        0 <= level <= 20,
    ensures
        r == cost_scaled(v as int, level as int),
        0 <= r <= 109 * v,
{
    if level == 0 {
        v * 25 / 32
    } else {
        let e = (level - 1) as u32;
        let r = scale_pow(v as u128, 32, 25, e);
        proof {
            assert(pow(32, 19) <= 109 * pow(25, 19)) by {
                reveal_with_fuel(pow, 20);
            }
            lemma_ratio_bound(32, 25, e as nat, 19, 109);
            lemma_scaled_le(v as nat, 32, 25, e as nat, 109);
            lemma_pow_positive(32, e as nat);
            lemma_pow_positive(25, e as nat);
            assert(0 <= v * pow(32, e as nat)) by (nonlinear_arith)
                requires
                    v >= 0,
                    pow(32, e as nat) > 0,
            ;
            vstd::arithmetic::div_mod::lemma_div_pos_is_pos(v * pow(32, e as nat), pow(25, e as nat));
        }
        r as i32
    }
}

impl BuildingType {
    pub fn is_resource_field(&self) -> (r: bool)
        ensures
            r == self.spec_is_resource_field(),
    {
        match self {
            BuildingType::Woodcutter | BuildingType::ClayPit | BuildingType::IronMine
            | BuildingType::CropField => true,
            _ => false,
        }
    }

    /// The highest level a building of this kind can reach.
    pub fn max_level(&self) -> (r: i32)
        ensures
            r == MAX_BUILDING_LEVEL,
    {
        MAX_BUILDING_LEVEL
    }

    pub fn as_str(&self) -> (r: &'static str)
        ensures
            r@ == self.spec_name(),
    {
        match self {
            BuildingType::MainBuilding => "main_building",
            BuildingType::Warehouse => "warehouse",
            BuildingType::Granary => "granary",
            BuildingType::Barracks => "barracks",
            BuildingType::Stable => "stable",
            BuildingType::Workshop => "workshop",
            BuildingType::Academy => "academy",
            BuildingType::Smithy => "smithy",
            BuildingType::RallyPoint => "rally_point",
            BuildingType::Market => "market",
            BuildingType::Embassy => "embassy",
            BuildingType::TownHall => "town_hall",
            BuildingType::Residence => "residence",
            BuildingType::Palace => "palace",
            BuildingType::Treasury => "treasury",
            BuildingType::TradeOffice => "trade_office",
            BuildingType::Wall => "wall",
            BuildingType::Woodcutter => "woodcutter",
            BuildingType::ClayPit => "clay_pit",
            BuildingType::IronMine => "iron_mine",
            BuildingType::CropField => "crop_field",
        }
    }

    /// The prerequisites of building this kind.
    pub fn prerequisites(&self) -> (r: Vec<BuildingPrerequisite>)
        ensures
            r@ == self.spec_prerequisites(),
    {
        let r = match self {
            BuildingType::MainBuilding => vec![],
            BuildingType::Warehouse => vec![BuildingPrerequisite { building_type: BuildingType::MainBuilding, min_level: 1 }],
            BuildingType::Granary => vec![BuildingPrerequisite { building_type: BuildingType::MainBuilding, min_level: 1 }],
            BuildingType::Barracks => vec![BuildingPrerequisite { building_type: BuildingType::MainBuilding, min_level: 3 }, BuildingPrerequisite { building_type: BuildingType::RallyPoint, min_level: 1 }],
            BuildingType::Stable => vec![BuildingPrerequisite { building_type: BuildingType::Smithy, min_level: 3 }, BuildingPrerequisite { building_type: BuildingType::Academy, min_level: 5 }],
            BuildingType::Workshop => vec![BuildingPrerequisite { building_type: BuildingType::MainBuilding, min_level: 5 }, BuildingPrerequisite { building_type: BuildingType::Academy, min_level: 10 }],
            BuildingType::Academy => vec![BuildingPrerequisite { building_type: BuildingType::MainBuilding, min_level: 3 }, BuildingPrerequisite { building_type: BuildingType::Barracks, min_level: 3 }],
            BuildingType::Smithy => vec![BuildingPrerequisite { building_type: BuildingType::MainBuilding, min_level: 3 }, BuildingPrerequisite { building_type: BuildingType::Barracks, min_level: 1 }],
            BuildingType::RallyPoint => vec![],
            BuildingType::Market => vec![BuildingPrerequisite { building_type: BuildingType::MainBuilding, min_level: 1 }, BuildingPrerequisite { building_type: BuildingType::Warehouse, min_level: 1 }, BuildingPrerequisite { building_type: BuildingType::Granary, min_level: 1 }],
            BuildingType::Embassy => vec![BuildingPrerequisite { building_type: BuildingType::MainBuilding, min_level: 1 }],
            BuildingType::TownHall => vec![BuildingPrerequisite { building_type: BuildingType::MainBuilding, min_level: 10 }, BuildingPrerequisite { building_type: BuildingType::Academy, min_level: 10 }],
            BuildingType::Residence => vec![BuildingPrerequisite { building_type: BuildingType::MainBuilding, min_level: 5 }],
            BuildingType::Palace => vec![BuildingPrerequisite { building_type: BuildingType::MainBuilding, min_level: 5 }, BuildingPrerequisite { building_type: BuildingType::Embassy, min_level: 1 }],
            BuildingType::Treasury => vec![BuildingPrerequisite { building_type: BuildingType::MainBuilding, min_level: 10 }],
            BuildingType::TradeOffice => vec![BuildingPrerequisite { building_type: BuildingType::Stable, min_level: 10 }, BuildingPrerequisite { building_type: BuildingType::Market, min_level: 20 }],
            BuildingType::Wall => vec![],
            BuildingType::Woodcutter => vec![],
            BuildingType::ClayPit => vec![],
            BuildingType::IronMine => vec![],
            BuildingType::CropField => vec![],
        };
        r
    }

    fn base_population_of(&self) -> (r: i32)
        ensures
            r == self.base_population(),
    {
        match self {
            BuildingType::MainBuilding => 2,
            BuildingType::Warehouse => 1,
            BuildingType::Granary => 1,
            BuildingType::Barracks => 4,
            BuildingType::Stable => 5,
            BuildingType::Workshop => 6,
            BuildingType::Academy => 4,
            BuildingType::Smithy => 4,
            BuildingType::RallyPoint => 1,
            BuildingType::Market => 4,
            BuildingType::Embassy => 3,
            BuildingType::TownHall => 4,
            BuildingType::Residence => 1,
            BuildingType::Palace => 1,
            BuildingType::Treasury => 4,
            BuildingType::TradeOffice => 6,
            BuildingType::Wall => 0,
            BuildingType::Woodcutter => 2,
            BuildingType::ClayPit => 2,
            BuildingType::IronMine => 3,
            BuildingType::CropField => 0,
        }
    }

    /// Cost of the first level of this kind.
    pub fn base_cost(&self) -> (r: BuildingCost)
        ensures
            r == self.spec_base_cost(),
    {
        match self {
            BuildingType::MainBuilding => BuildingCost { wood: 70, clay: 40, iron: 60, crop: 20, time_seconds: 300 },
            BuildingType::Warehouse => BuildingCost { wood: 130, clay: 160, iron: 90, crop: 40, time_seconds: 400 },
            BuildingType::Granary => BuildingCost { wood: 80, clay: 100, iron: 70, crop: 20, time_seconds: 350 },
            BuildingType::Barracks => BuildingCost { wood: 210, clay: 140, iron: 260, crop: 120, time_seconds: 600 },
            BuildingType::RallyPoint => BuildingCost { wood: 110, clay: 160, iron: 90, crop: 70, time_seconds: 250 },
            BuildingType::Market => BuildingCost { wood: 80, clay: 70, iron: 120, crop: 70, time_seconds: 400 },
            BuildingType::Woodcutter => BuildingCost { wood: 40, clay: 100, iron: 50, crop: 60, time_seconds: 260 },
            BuildingType::ClayPit => BuildingCost { wood: 80, clay: 40, iron: 80, crop: 50, time_seconds: 220 },
            BuildingType::IronMine => BuildingCost { wood: 100, clay: 80, iron: 30, crop: 60, time_seconds: 450 },
            BuildingType::CropField => BuildingCost { wood: 70, clay: 90, iron: 70, crop: 20, time_seconds: 150 },
            _ => BuildingCost { wood: 100, clay: 100, iron: 100, crop: 50, time_seconds: 300 },
        }
    }

    /// Population of a building of this kind at `level`.
    pub fn population_at_level(&self, level: i32) -> (r: i32)
        requires
            level >= 0,
        ensures
            r == self.spec_population_at_level(level as int),
    {
        if level == 0 {
            return 0;
        }
        self.base_population_of() + (level - 1) / 5
    }

    /// The cost of reaching `level`.
    pub fn cost_at_level(&self, level: i32) -> (r: BuildingCost)
        requires
            0 <= level <= MAX_BUILDING_LEVEL,
        ensures
            r == self.spec_cost_at_level(level as int),
    {
        let base = self.base_cost();
        BuildingCost {
            wood: scale_cost(base.wood, level),
            clay: scale_cost(base.clay, level),
            iron: scale_cost(base.iron, level),
            crop: scale_cost(base.crop, level),
            time_seconds: scale_cost(base.time_seconds, level),
        }
    }

    /// Hourly yield of a building of this kind at `level`.
    pub fn production_per_hour(&self, level: i32) -> (r: i32)
        requires
            0 <= level <= MAX_BUILDING_LEVEL,
        ensures
            r == self.spec_production_per_hour(level as int),
    {
        if !self.is_resource_field() {
            return 0;
        }
        field_yield_at(level)
    }

    /// Storage that a building of this kind adds at `level`.
    pub fn storage_capacity(&self, level: i32) -> (r: i32)
        requires
            0 <= level <= MAX_BUILDING_LEVEL,
        ensures
            r == self.spec_storage_capacity(level as int),
            0 <= r <= 15600,
    {
        if level == 0 {
            return BASE_STORAGE;
        }
        match self {
            BuildingType::Warehouse | BuildingType::Granary => {
                let r = scale_pow(400, 6, 5, level as u32);
                proof {
                    assert(pow(6, 20) <= 39 * pow(5, 20)) by {
                        reveal_with_fuel(pow, 21);
                    }
                    lemma_ratio_bound(6, 5, level as nat, 20, 39);
                    lemma_scaled_le(400, 6, 5, level as nat, 39);
                }
                r as i32
            },
            _ => 0,
        }
    }
}

fn field_yield_at(level: i32) -> (r: i32)
    requires
        0 <= level <= 20,
    ensures
        r == field_yield(level as int),
{
    match level {
        0 => 1,
        1 => 3,
        2 => 4,
        3 => 8,
        4 => 13,
        5 => 22,
        6 => 37,
        7 => 63,
        8 => 108,
        9 => 185,
        10 => 320,
        11 => 557,
        12 => 976,
        13 => 1720,
        14 => 3052,
        15 => 5453,
        16 => 9808,
        17 => 17761,
        18 => 32383,
        19 => 59443,
        _ => 109858,
    }
}

} // verus!
