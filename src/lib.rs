//! How long since a shared counter was last reset: the breakdown of a
//! duration into fixed-length units and its German rendering, the
//! get-or-initialize and reset decisions around the one persisted epoch,
//! and the client's view, which ticks, reconciles with the stored epoch and
//! applies confirmed resets.

pub mod breakdown;
pub mod format;
pub mod store;
pub mod ticker;
pub mod view;
