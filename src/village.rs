//! Founding villages: the starting layout of buildings and the search for a
//! free map cell near a point.
use vstd::prelude::*;
use crate::building::BuildingType;
use crate::error::GameError;

verus! {

/// The starting layout: main building and rally point at level one in town
/// slots 1 and 2, then four woodcutters, four clay pits, four iron mines and
/// six crop fields at level zero in field slots 101 to 118.
pub open spec fn spec_initial_layout() -> Seq<(i32, BuildingType, i32)> {
    seq![
        (1i32, BuildingType::MainBuilding, 1i32),
        (2i32, BuildingType::RallyPoint, 1i32),
    ] + Seq::new(18, |i: int| ((101 + i) as i32, field_kind(i), 0i32))
}

/// The kind of the `i`-th field slot.
pub open spec fn field_kind(i: int) -> BuildingType {
    if i < 4 {
        BuildingType::Woodcutter
    } else if i < 8 {
        BuildingType::ClayPit
    } else if i < 12 {
        BuildingType::IronMine
    } else {
        BuildingType::CropField
    }
}

/// Chebyshev distance between two cells.
pub open spec fn ring(x: int, y: int, cx: int, cy: int) -> int {
    let dx = if x >= cx {
        x - cx
    } else {
        cx - x
    };
    let dy = if y >= cy {
        y - cy
    } else {
        cy - y
    };
    if dx >= dy {
        dx
    } else {
        dy
    }
}

/// Whether a cell is among the taken ones.
pub open spec fn is_taken(taken: Seq<(i32, i32)>, x: int, y: int) -> bool {
    exists|i: int| 0 <= i < taken.len() && #[trigger] taken[i] == (x as i32, y as i32)
}

/// Every cell at a distance in `[1, d]` of the centre is taken.
pub open spec fn rings_full(taken: Seq<(i32, i32)>, cx: int, cy: int, d: int) -> bool {
    forall|x: int, y: int|
        1 <= #[trigger] ring(x, y, cx, cy) <= d ==> is_taken(taken, x, y)
}

/// A request to found a village at a cell.
#[derive(Debug, Clone)]
pub struct CreateVillageRequest {
    pub name: String,
    pub x: i32,
    pub y: i32,
}

/// Where a new village stands and whether it is its owner's capital.
#[derive(Debug, Clone, Copy, PartialEq, Eq, Structural)]
pub struct VillagePlacement {
    pub x: i32,
    pub y: i32,
    pub is_capital: bool,
}

/// The village engine's operations.
pub struct VillageService;

impl VillageService {
    /// The starting layout of a new village as (slot, kind, level).
    pub fn initial_buildings() -> (r: Vec<(i32, BuildingType, i32)>)
        ensures
            r@ == spec_initial_layout(),
    {
        let mut r: Vec<(i32, BuildingType, i32)> = Vec::new();
        r.push((1, BuildingType::MainBuilding, 1));
        r.push((2, BuildingType::RallyPoint, 1));
        let mut i: i32 = 0;
        while i < 18
            invariant
                0 <= i <= 18,
                r@ == seq![
                    (1i32, BuildingType::MainBuilding, 1i32),
                    (2i32, BuildingType::RallyPoint, 1i32),
                ] + Seq::new(i as nat, |k: int| ((101 + k) as i32, field_kind(k), 0i32)),
            decreases 18 - i,
        {
            let kind = if i < 4 {
                BuildingType::Woodcutter
            } else if i < 8 {
                BuildingType::ClayPit
            } else if i < 12 {
                BuildingType::IronMine
            } else {
                BuildingType::CropField
            };
            r.push((101 + i, kind, 0));
            proof {
                assert(r@ =~= seq![
                    (1i32, BuildingType::MainBuilding, 1i32),
                    (2i32, BuildingType::RallyPoint, 1i32),
                ] + Seq::new((i + 1) as nat, |k: int| ((101 + k) as i32, field_kind(k), 0i32)));
            }
            i = i + 1;
        }
        r
    }

    /// Places a new village of a user who owns `villages_owned` villages:
    /// refused with a conflict when the cell is taken; the first village of
    /// a user is the capital.
    pub fn place_village(request: &CreateVillageRequest, taken: &Vec<(i32, i32)>, villages_owned: u64) -> (r:
        Result<VillagePlacement, GameError>)
        ensures
            r == if is_taken(taken@, request.x as int, request.y as int) {
                Err(GameError::CoordinatesTaken)
            } else {
                Ok(VillagePlacement { x: request.x, y: request.y, is_capital: villages_owned == 0 })
            },
    {
        if !Self::is_coordinate_available(taken, request.x, request.y) {
            return Err(GameError::CoordinatesTaken);
        }
        Ok(VillagePlacement { x: request.x, y: request.y, is_capital: villages_owned == 0 })
    }

    /// Whether a cell is free.
    pub fn is_coordinate_available(taken: &Vec<(i32, i32)>, x: i32, y: i32) -> (r: bool)
        ensures
            r == !is_taken(taken@, x as int, y as int),
    {
        let mut i: usize = 0;
        while i < taken.len()
            invariant
                i <= taken@.len(),
                forall|k: int| 0 <= k < i ==> #[trigger] taken@[k] != (x, y),
            decreases taken@.len() - i,
        {
            if taken[i].0 == x && taken[i].1 == y {
                return false;
            }
            i = i + 1;
        }
        true
    }

    /// A free cell near (`near_x`, `near_y`): rings of growing distance are
    /// searched from one to `max_distance`, so the cell found lies on the
    /// nearest ring that has a free cell; none when all those rings are taken.
    pub fn find_available_coordinates(taken: &Vec<(i32, i32)>, near_x: i32, near_y: i32, max_distance: i32)
        -> (r: Option<(i32, i32)>)
        requires
            0 <= max_distance < i32::MAX,
            i32::MIN + max_distance <= near_x <= i32::MAX - max_distance,
            i32::MIN + max_distance <= near_y <= i32::MAX - max_distance,
        ensures
            match r {
                Some((x, y)) => {
                    &&& !is_taken(taken@, x as int, y as int)
                    &&& 1 <= ring(x as int, y as int, near_x as int, near_y as int) <= max_distance
                    &&& rings_full(taken@, near_x as int, near_y as int, ring(x as int, y as int, near_x as int, near_y as int) - 1)
                },
                None => rings_full(taken@, near_x as int, near_y as int, max_distance as int),
            },
    {
        let mut d: i32 = 1;
        while d <= max_distance
            invariant
                1 <= d <= max_distance + 1,
                0 <= max_distance < i32::MAX,
                i32::MIN + max_distance <= near_x <= i32::MAX - max_distance,
                i32::MIN + max_distance <= near_y <= i32::MAX - max_distance,
                rings_full(taken@, near_x as int, near_y as int, d - 1),
            decreases max_distance + 1 - d,
        {
            let mut dx: i32 = -d;
            while dx <= d
                invariant
                    1 <= d <= max_distance < i32::MAX,
                    -d <= dx <= d + 1,
                    i32::MIN + max_distance <= near_x <= i32::MAX - max_distance,
                    i32::MIN + max_distance <= near_y <= i32::MAX - max_distance,
                    rings_full(taken@, near_x as int, near_y as int, d - 1),
                    forall|x: int, y: int|
                        #![trigger ring(x, y, near_x as int, near_y as int)]
                        ring(x, y, near_x as int, near_y as int) == d && x < near_x + dx ==> is_taken(taken@, x, y),
                decreases d + 1 - dx,
            {
                let mut dy: i32 = -d;
                while dy <= d
                    invariant
                        1 <= d <= max_distance < i32::MAX,
                        -d <= dx <= d,
                        -d <= dy <= d + 1,
                        i32::MIN + max_distance <= near_x <= i32::MAX - max_distance,
                        i32::MIN + max_distance <= near_y <= i32::MAX - max_distance,
                        rings_full(taken@, near_x as int, near_y as int, d - 1),
                        forall|x: int, y: int|
                            #![trigger ring(x, y, near_x as int, near_y as int)]
                            ring(x, y, near_x as int, near_y as int) == d && (x < near_x + dx || (x == near_x + dx && y < near_y + dy)) ==> is_taken(taken@, x, y),
                    decreases d + 1 - dy,
                {
                    let on_ring = dx == d || dx == -d || dy == d || dy == -d;
                    if on_ring {
                        let x = near_x + dx;
                        let y = near_y + dy;
                        if Self::is_coordinate_available(taken, x, y) {
                            proof {
                                assert(ring(x as int, y as int, near_x as int, near_y as int) == d);
                            }
                            return Some((x, y));
                        }
                    }
                    proof {
                        let cx = near_x + dx;
                        let cy = near_y + dy;
                        assert forall|x: int, y: int|
                            #![trigger ring(x, y, near_x as int, near_y as int)]
                            ring(x, y, near_x as int, near_y as int) == d && (x < near_x + dx || (x == near_x + dx && y < near_y + dy + 1)) implies is_taken(taken@, x, y) by {
                            if x == cx && y == cy {
                                if !on_ring {
                                    assert(ring(x, y, near_x as int, near_y as int) < d);
                                }
                            }
                        }
                    }
                    dy = dy + 1;
                }
                proof {
                    assert forall|x: int, y: int|
                        #![trigger ring(x, y, near_x as int, near_y as int)]
                        ring(x, y, near_x as int, near_y as int) == d && x < near_x + dx + 1 implies is_taken(taken@, x, y) by {
                        if x == near_x + dx {
                            assert(y < near_y + dy);
                        }
                    }
                }
                dx = dx + 1;
            }
            proof {
                assert forall|x: int, y: int| 1 <= #[trigger] ring(x, y, near_x as int, near_y as int) <= d implies is_taken(taken@, x, y) by {
                    if ring(x, y, near_x as int, near_y as int) == d {
                        assert(x < near_x + dx);
                    }
                }
            }
            d = d + 1;
        }
        None
    }
}

} // verus!
