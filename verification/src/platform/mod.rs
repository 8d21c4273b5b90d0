//! Host-specific behaviour of the overlay.

use vstd::prelude::*;

pub mod nogui;
pub mod win;

verus! {

/// "Stealth mode" of a user-interface surface.
///
/// The surface of the embedding program implements this for the host it runs
/// on.  On Windows the routine to run is the one that [`win::advance`] steps
/// through.
pub trait HideAndSeek {
    /// Enters stealth mode.  This is generally a one-way trip, but may vary
    /// by host and implementation.
    fn stealth(&self);
}

} // verus!
