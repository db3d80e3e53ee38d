//! A per-account resource economy: players found a city (or a single mine),
//! buy gold mines and level them up, paying in gold that mines accrue over time.
//!
//! Every action is a transition from (state, caller, time) to a new state or a
//! typed error that leaves the state untouched.
pub mod accrual;
pub mod error;
pub mod game;
pub mod template;
