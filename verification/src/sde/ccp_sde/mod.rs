//! The static data export in its earlier layout.

pub mod load;
pub mod update;
