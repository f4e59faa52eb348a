//! Chaos testing: simulated failures of PostgreSQL, disks and storage, the
//! scenarios built from them, and the bookkeeping of injected faults.

pub mod fault_injection;
pub mod scenarios;
pub mod simulators;
