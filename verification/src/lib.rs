//! Slot/side layout and motion engine for a creature-collection game:
//! places buddy entities and their pad anchors into discrete slots on two
//! battlefield sides plus a shop row, and animates transitions between the
//! shop and battle application states with resumable, eased tweens.
//!
//! All fractional quantities are fixed-point `i64` values scaled by
//! [`fixed::UNIT`]; time is in milliseconds.

use vstd::prelude::*;

pub mod animate;
pub mod buddy;
pub mod ease;
pub mod fixed;
pub mod pad;
mod rng;
pub mod shop;
pub mod types;

verus! {

/// The host application's coarse mode. The motion engine reacts to the
/// `Shop` and `Battle` states; the others belong to the host's flow.
#[derive(Debug, Clone, Eq, PartialEq, Hash, Structural)]
pub enum AppState {
    LoadNetwork,
    Connect,
    Login,
    Menu,
    Startup,
    Shop,
    Battle,
}

} // verus!
