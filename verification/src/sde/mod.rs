//! The static data export: its records and how a local copy is kept current.

pub mod ccp_sde;
pub mod load;
pub mod update;
