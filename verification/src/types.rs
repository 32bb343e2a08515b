//! Type definitions for the values that the aoe4world API exchanges.

pub mod civilization;
pub mod games;
pub mod leaderboards;
pub mod maps;
pub mod profile;
pub mod rank;
