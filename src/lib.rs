//! Simulation and transaction engine of a browser-based multiplayer strategy
//! game: resource production, construction and training queues, the market
//! order book with escrow, the gold ledger and the periodic jobs that advance
//! time-based state.

pub mod army;
pub mod building;
pub mod construction;
pub mod error;
pub mod events;
pub mod gold;
pub mod market;
pub mod order_book;
pub mod payment;
pub mod production;
pub mod resources;
pub mod shop;
pub mod store;
pub mod troops;
pub mod village;
