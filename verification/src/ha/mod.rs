//! High-availability orchestration for PostgreSQL clusters: switchover,
//! failover and node cloning, as plans of steps and the decisions that
//! drive their execution.

pub mod checks;
pub mod clone;
pub mod failover;
pub mod report;
pub mod switchover;
pub mod types;
