//! Lists of item types, the user agent of requests, and units of measure.

pub mod item_list;
pub mod units;
pub mod user_agent;
