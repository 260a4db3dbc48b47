//! The four tradable resources and a bundle of amounts of them.
use vstd::prelude::*;

verus! {

/// One of the four resources that villages produce and the market trades.
#[derive(Debug, Clone, Copy, PartialEq, Eq, Hash, Structural)]
pub enum TradeResourceType {
    Wood,
    Clay,
    Iron,
    Crop,
}

/// The lower-case name of a resource, as the store and the event payloads write it.
pub open spec fn resource_name(t: TradeResourceType) -> Seq<char> {
    match t {
        TradeResourceType::Wood => "wood"@,
        TradeResourceType::Clay => "clay"@,
        TradeResourceType::Iron => "iron"@,
        TradeResourceType::Crop => "crop"@,
    }
}

impl TradeResourceType {
    /// Every resource, in the canonical order wood, clay, iron, crop.
    pub fn all() -> (r: Vec<TradeResourceType>)
        ensures
            r@ == seq![
                TradeResourceType::Wood,
                TradeResourceType::Clay,
                TradeResourceType::Iron,
                TradeResourceType::Crop,
            ],
    {
        vec![
            TradeResourceType::Wood,
            TradeResourceType::Clay,
            TradeResourceType::Iron,
            TradeResourceType::Crop,
        ]
    }
}

/// The lower-case name of a resource.
pub fn resource_type_name(resource_type: TradeResourceType) -> (r: &'static str)
    ensures
        r@ == resource_name(resource_type),
{
    match resource_type {
        TradeResourceType::Wood => "wood",
        TradeResourceType::Clay => "clay",
        TradeResourceType::Iron => "iron",
        TradeResourceType::Crop => "crop",
    }
}

/// `amount` of `t` and nothing of the others.
pub open spec fn single(t: TradeResourceType, amount: i32) -> Resources {
    Resources { wood: 0, clay: 0, iron: 0, crop: 0 }.with(t, amount)
}

/// An amount of each of the four resources.
#[derive(Debug, Clone, Copy, Default)]
pub struct Resources {
    pub wood: i32,
    pub clay: i32,
    pub iron: i32,
    pub crop: i32,
}

impl Resources {
    /// The amount held of one resource.
    pub open spec fn amount(self, t: TradeResourceType) -> int {
        match t {
            TradeResourceType::Wood => self.wood as int,
            TradeResourceType::Clay => self.clay as int,
            TradeResourceType::Iron => self.iron as int,
            TradeResourceType::Crop => self.crop as int,
        }
    }

    /// The sum of the four amounts.
    pub open spec fn sum(self) -> int {
        self.wood + self.clay + self.iron + self.crop
    }

    /// `self` with the amount of `t` replaced by `v`.
    pub open spec fn with(self, t: TradeResourceType, v: i32) -> Resources {
        match t {
            TradeResourceType::Wood => Resources { wood: v, ..self },
            TradeResourceType::Clay => Resources { clay: v, ..self },
            TradeResourceType::Iron => Resources { iron: v, ..self },
            TradeResourceType::Crop => Resources { crop: v, ..self },
        }
    }

    pub fn new(wood: i32, clay: i32, iron: i32, crop: i32) -> (r: Self)
        ensures
            r.wood == wood,
            r.clay == clay,
            r.iron == iron,
            r.crop == crop,
    {
        Resources { wood, clay, iron, crop }
    }

    /// A bundle with every amount zero.
    pub fn zero() -> (r: Self)
        ensures
            r.wood == 0 && r.clay == 0 && r.iron == 0 && r.crop == 0,
    {
        Resources { wood: 0, clay: 0, iron: 0, crop: 0 }
    }

    pub fn is_empty(&self) -> (r: bool)
        ensures
            r == (self.wood == 0 && self.clay == 0 && self.iron == 0 && self.crop == 0),
    {
        self.wood == 0 && self.clay == 0 && self.iron == 0 && self.crop == 0
    }

    /// The sum of the four amounts; the sum must fit in an `i32`.
    pub fn total(&self) -> (r: i32)
        requires
            i32::MIN <= self.sum() <= i32::MAX,
        ensures
            r == self.sum(),
    {
        let s: i64 = self.wood as i64 + self.clay as i64 + self.iron as i64 + self.crop as i64;
        s as i32
    }

    pub fn get(&self, resource_type: TradeResourceType) -> (r: i32)
        ensures
            r == self.amount(resource_type),
    {
        match resource_type {
            TradeResourceType::Wood => self.wood,
            TradeResourceType::Clay => self.clay,
            TradeResourceType::Iron => self.iron,
            TradeResourceType::Crop => self.crop,
        }
    }

    pub fn set(&mut self, resource_type: TradeResourceType, amount: i32)
        ensures
            *final(self) == old(self).with(resource_type, amount),
    {
        match resource_type {
            TradeResourceType::Wood => self.wood = amount,
            TradeResourceType::Clay => self.clay = amount,
            TradeResourceType::Iron => self.iron = amount,
            TradeResourceType::Crop => self.crop = amount,
        }
    }

    /// Adds `amount` to one resource; the result must fit in an `i32`.
    pub fn add(&mut self, resource_type: TradeResourceType, amount: i32)
        requires
            i32::MIN <= old(self).amount(resource_type) + amount <= i32::MAX,
        ensures
            *final(self) == old(self).with(
                resource_type,
                (old(self).amount(resource_type) + amount) as i32,
            ),
    {
        match resource_type {
            TradeResourceType::Wood => self.wood = self.wood + amount,
            TradeResourceType::Clay => self.clay = self.clay + amount,
            TradeResourceType::Iron => self.iron = self.iron + amount,
            TradeResourceType::Crop => self.crop = self.crop + amount,
        }
    }

    /// Takes `amount` from one resource; the result must fit in an `i32`.
    pub fn subtract(&mut self, resource_type: TradeResourceType, amount: i32)
        requires
            i32::MIN <= old(self).amount(resource_type) - amount <= i32::MAX,
        ensures
            *final(self) == old(self).with(
                resource_type,
                (old(self).amount(resource_type) - amount) as i32,
            ),
    {
        match resource_type {
            TradeResourceType::Wood => self.wood = self.wood - amount,
            TradeResourceType::Clay => self.clay = self.clay - amount,
            TradeResourceType::Iron => self.iron = self.iron - amount,
            TradeResourceType::Crop => self.crop = self.crop - amount,
        }
    }
}

} // verus!
