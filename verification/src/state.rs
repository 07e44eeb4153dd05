use vstd::prelude::*;

verus! {

/// Transport state of the playback engine.
///
/// In the running engine this is stored as a single atomic byte so that the
/// output callback can read it without taking a lock; only the controller
/// writes it. `Stopped` is the initial and quiescent state.
#[derive(Clone, Copy, Debug, PartialEq, Eq, Structural)]
pub enum PlaybackState {
    Stopped,
    Playing,
    Paused,
}

impl PlaybackState {
    /// The byte under which this state is stored in the shared atomic.
    pub open spec fn spec_byte(self) -> u8 {
        match self {
            PlaybackState::Stopped => 0,
            PlaybackState::Playing => 1,
            PlaybackState::Paused => 2,
        }
    }

    /// The state denoted by a byte read from the shared atomic; any byte
    /// outside the three known values is read as `Stopped`.
    pub open spec fn spec_from_byte(v: u8) -> PlaybackState {
        if v == 1 {
            PlaybackState::Playing
        } else if v == 2 {
            PlaybackState::Paused
        } else {
            PlaybackState::Stopped
        }
    }

    pub fn to_byte(self) -> (r: u8)
        ensures
            r == self.spec_byte(),
    {
        match self {
            PlaybackState::Stopped => 0,
            PlaybackState::Playing => 1,
            PlaybackState::Paused => 2,
        }
    }

    pub fn from_byte(v: u8) -> (r: PlaybackState)
        ensures
            r == PlaybackState::spec_from_byte(v),
    {
        if v == 1 {
            PlaybackState::Playing
        } else if v == 2 {
            PlaybackState::Paused
        } else {
            PlaybackState::Stopped
        }
    }

    /// Round-trip law: storing a state and reading it back yields the state.
    pub proof fn lemma_byte_round_trip(self)
        ensures
            PlaybackState::spec_from_byte(self.spec_byte()) == self,
    {
    }
}

} // verus!
