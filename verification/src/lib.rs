//! A fixed-capacity pool of background workers with a drain-on-shutdown
//! protocol, together with a collection of small verified utilities that
//! grew alongside it.

pub mod adder;
pub mod aggregator;
pub mod coins;
pub mod counters;
pub mod fibonacci;
pub mod functions;
pub mod guess;
pub mod guessing_game;
pub mod inventory;
pub mod lifetimes;
pub mod ownership;
pub mod pointers;
pub mod pool;
pub mod restaurant;
pub mod shapes;
pub mod tracker;
