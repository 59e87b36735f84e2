//! Mirrors a user's remote media list into a local store: filtering of the
//! remote lists, reconciliation against the stored snapshot, image caching
//! decisions and the state machine of one synchronisation run.

pub mod anilist_models;
pub mod asset;
pub mod date;
pub mod differ;
pub mod filter;
pub mod models;
pub mod store;
pub mod sync;
pub mod text;
