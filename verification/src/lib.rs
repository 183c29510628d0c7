//! Icon build pipeline for item types: classification of item types into icon
//! kinds, a content-addressed cache index, image compositing and the plans of
//! the output publishers, together with the static-data records they draw on.

pub mod cache;
pub mod fsd;
pub mod hardcoded;
pub mod icons;
pub mod lines;
pub mod order;
pub mod sde;
pub mod static_sqlite;
pub mod text;
pub mod types;
pub mod util;
