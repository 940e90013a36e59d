//! The accounting of an lpUSD auction pool: depositors put lpUSD into the
//! pool, are credited a share of it, withdraw against that share, and the
//! pool pays off the borrowed lpUSD of a liquidated position.
pub mod state;
pub mod share;
pub mod auction;
pub mod laws;
