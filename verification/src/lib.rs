//! Watchlist-driven sale finder for a game-storefront catalog.
//!
//! The core of the crate is the acceptability filter: given a watched game
//! (a title plus an optional price ceiling) and the catalog records returned
//! by a search for that title, it decides which records count as an
//! acceptable sale.  Around it sit the aggregator, which sweeps a whole
//! watchlist while isolating per-title query failures, and small helpers for
//! building the search URL, the notification body and the configuration
//! paths.
//!
//! Prices are carried as whole numbers of minor currency units (cents), so
//! that a missing price is always distinct from a price of zero.

pub mod configuration;
pub mod entities;
pub mod init;
pub mod notifier;
pub mod switch;
pub mod text;

use vstd::prelude::*;

verus! {

} // verus!
