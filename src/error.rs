//! The errors that the engines report, and the kind each one belongs to.
use vstd::prelude::*;

verus! {

/// The coarse class of an error, which an adapter maps to a response code.
#[derive(Debug, Clone, Copy, PartialEq, Eq, Structural)]
pub enum ErrorKind {
    Unauthenticated,
    Forbidden,
    NotFound,
    BadRequest,
    Conflict,
    Internal,
}

/// A rejection by one of the engines, with the reason.
#[derive(Debug, Clone, Copy, PartialEq, Eq, Structural)]
pub enum GameError {
    /// The acting user does not own the village or the order.
    NotOwner,
    /// A referenced entity does not exist.
    NotFound,
    /// An order quantity below the minimum.
    QuantityTooSmall,
    /// An order quantity above the maximum.
    QuantityTooLarge,
    /// A unit price below the minimum.
    PriceTooLow,
    /// A unit price above the maximum.
    PriceTooHigh,
    /// An expiry shorter than one hour.
    ExpiryTooShort,
    /// An expiry longer than the maximum.
    ExpiryTooLong,
    /// The user already has the maximum number of open orders.
    TooManyOpenOrders,
    /// Not enough of a resource is available.
    InsufficientResources,
    /// The gold balance does not cover the cost.
    InsufficientGold,
    /// The order is in a state that cannot be filled.
    OrderNotFillable,
    /// The order's expiry has passed.
    OrderExpired,
    /// A user tried to accept their own order.
    OwnOrder,
    /// A fill quantity of zero or less.
    NonPositiveFill,
    /// A fill larger than what remains; carries what remains.
    FillExceedsRemaining { remaining: i32 },
    /// A fill below the minimum that is not the whole remainder.
    FillBelowMinimum,
    /// The order is in a state that cannot be cancelled.
    OrderNotCancellable,
    /// The order's expiry has not come yet.
    NotYetExpired,
    /// The building already has an upgrade in flight.
    AlreadyUpgrading,
    /// The building is at its highest level.
    MaxLevelReached,
    /// A prerequisite building is missing or too low.
    MissingPrerequisites,
    /// The building is not upgrading, so there is nothing to finish.
    NotUpgrading,
    /// A training count of zero or less.
    NonPositiveCount,
    /// The building that trains this troop is missing or too low.
    TrainingBuildingMissing,
    /// The training batch has already started.
    TrainingStarted,
    /// The training batch has not ended yet.
    TrainingNotDone,
    /// Fewer troops of a kind are in the village than were asked for.
    InsufficientTroops,
    /// A reallocation that changes the total of the four resources.
    TotalChanged,
    /// A reallocation with a negative amount.
    NegativeAmount,
    /// A reallocation above a storage capacity.
    ExceedsCapacity,
    /// The bonus or book is already active.
    AlreadyActive,
    /// A subscription duration that is not on sale.
    InvalidDuration,
    /// A signature header without a timestamp.
    MissingTimestamp,
    /// A signature header without a signature.
    MissingSignature,
    /// The signature does not match the payload.
    InvalidSignature,
    /// The timestamp is not a number.
    InvalidTimestamp,
    /// The timestamp is outside the accepted clock skew.
    TimestampOutOfTolerance,
    /// Another village already stands on the cell.
    CoordinatesTaken,
}

impl GameError {
    pub open spec fn spec_kind(self) -> ErrorKind {
        match self {
            GameError::NotOwner => ErrorKind::Forbidden,
            GameError::NotFound => ErrorKind::NotFound,
            GameError::CoordinatesTaken => ErrorKind::Conflict,
            _ => ErrorKind::BadRequest,
        }
    }

    /// The kind of this error.
    pub fn kind(&self) -> (r: ErrorKind)
        ensures
            r == self.spec_kind(),
    {
        match self {
            GameError::NotOwner => ErrorKind::Forbidden,
            GameError::NotFound => ErrorKind::NotFound,
            GameError::CoordinatesTaken => ErrorKind::Conflict,
            _ => ErrorKind::BadRequest,
        }
    }
}

} // verus!
