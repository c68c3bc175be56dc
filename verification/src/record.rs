//! The mathematical model of a game record and of the steps it can take.

use vstd::prelude::*;
use crate::identity::IDENTITY_BYTES;

verus! {

/// The number of values that the click counter can take: it counts modulo
/// this number.
pub open spec fn counter_modulus() -> nat {
    0x1_0000_0000
}

/// What a game record holds: the bytes of the player's identity, and how many
/// clicks have been counted.
pub struct Record {
    pub player: Seq<u8>,
    pub clicks: nat,
}

impl Record {
    /// A record is well formed when its player is a whole identity and its
    /// counter is one that a stored record can hold.
    pub open spec fn wf(self) -> bool {
        &&& self.player.len() == IDENTITY_BYTES
        &&& self.clicks < counter_modulus()
    }

    /// The record of a player who has just been given one: no clicks yet.
    pub open spec fn created(player: Seq<u8>) -> Record {
        Record { player, clicks: 0 }
    }

    /// The record after one more click: the counter goes up by one and starts
    /// again at zero after its largest value; the player stays.
    pub open spec fn clicked(self) -> Record {
        Record { player: self.player, clicks: (self.clicks + 1) % counter_modulus() }
    }

    /// The record after `n` more clicks.
    pub open spec fn clicked_times(self, n: nat) -> Record
        decreases n,
    {
        if n == 0 {
            self
        } else {
            self.clicked_times((n - 1) as nat).clicked()
        }
    }

    /// Whether `caller` is the player that this record belongs to.
    pub open spec fn owned_by(self, caller: Seq<u8>) -> bool {
        self.player == caller
    }
}

} // verus!
