//! Explainable kline analysis for grid-trading assistance: the decisions
//! that turn indicator evidence into a market state, a grid plan and
//! chart signals, with the bookkeeping around them (ordering rows by open
//! time, counting side changes, reading open-time values).

pub mod grid;
pub mod market;
pub mod ordering;
pub mod signals;
pub mod timestamp;
