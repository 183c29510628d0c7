//! The icon build pipeline.

pub mod checksum;
pub mod classify;
pub mod compositor;
pub mod data;
pub mod export;
pub mod index;
pub mod kind;
pub mod laws;
pub mod metadata;
pub mod publish;
pub mod recipe;
pub mod sde;
pub mod web;
pub mod web_laws;
