//! The mute switch.

use vstd::prelude::*;

verus! {

/// Whether the player has switched the sound off.
#[derive(Debug, Clone, Copy, PartialEq, Eq, Structural)]
pub struct Muted {
    pub muted: bool,
}

/// Master volume while the sound is on, in millionths of full volume.
pub const UNMUTED_VOLUME: u64 = 500_000;

impl Muted {
    /// Flips the switch and gives the master volume that goes with the new
    /// setting, in millionths: half volume when the sound comes back, none
    /// when it goes.
    pub fn toggle(&mut self) -> (volume: u64)
        ensures
            final(self).muted == !old(self).muted,
            volume == if old(self).muted {
                UNMUTED_VOLUME
            } else {
                0
            },
    {
        if self.muted {
            self.muted = false;
            UNMUTED_VOLUME
        } else {
            self.muted = true;
            0
        }
    }
}

impl Default for Muted {
    fn default() -> (muted: Muted)
        ensures
            !muted.muted,
    {
        Muted { muted: false }
    }
}

} // verus!
