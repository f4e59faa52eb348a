//! Verified core of the Warden PostgreSQL tooling: plans, decisions and
//! text formatting that the command-line front end drives.

pub mod backup;
pub mod chaos;
pub mod cli;
pub mod cluster;
pub mod common;
pub mod error_codes;
pub mod ha;
pub mod ids;
pub mod sys;
pub mod text;
pub mod timestamps;
pub mod units;
