//! Trust and sandbox core for a plugin-hosting text editor.
//!
//! The crate models plugin capabilities as a four-dimensional algebra with
//! `merge` (least upper bound) and `is_subset_of` (partial order), classifies
//! plugins by trust level, verifies detached signatures over a canonical
//! payload that binds both the manifest and the entry-point bytes, mediates
//! host operations through capability checks, and tracks plugin lifecycle,
//! dependencies, resource budgets and audit history.

pub mod audit;
pub mod capabilities;
pub mod debounce;
pub mod ext;
pub mod gitstatus;
pub mod languages;
pub mod loader;
pub mod manager;
pub mod ops;
pub mod sandbox;
pub mod smap;
pub mod sset;
pub mod text;
pub mod theme;
pub mod trust;
