//! Decision logic of a trailing-stop trading bot for two- and three-outcome
//! prediction markets, with its contracts proved by Verus.
//!
//! Prices and share counts are fixed-point integers: one unit is a
//! millionth of a dollar (or of a share).

pub mod display;
pub mod price;
pub mod sizing;
pub mod trailing;
pub mod laws;
pub mod end_date;
pub mod market;
pub mod clock;
