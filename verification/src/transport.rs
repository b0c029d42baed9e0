//! The transport: which way the head moves during one sample.

use crate::tapeloop::{Tape, TAPESTATE};
use vstd::prelude::*;

verus! {

/// What the head does during one sample.
#[derive(Clone, Copy, Debug, PartialEq, Eq, Structural)]
pub enum Transport {
    /// The head rests, and the loop neither records nor plays.
    Idle,
    /// One step forward.
    Play,
    /// One step backward.
    Reverse,
    /// Several steps forward at once.
    FastForward,
}

impl Transport {
    /// The mode that a set of controls asks for: reverse goes before
    /// fast-forward, fast-forward before play, and with none of them the
    /// transport is idle.
    pub open spec fn selected(reverse: bool, fast_forward: bool, play: bool) -> Transport {
        if reverse {
            Transport::Reverse
        } else if fast_forward {
            Transport::FastForward
        } else if play {
            Transport::Play
        } else {
            Transport::Idle
        }
    }

    /// The mode that a set of controls asks for.
    pub fn select(reverse: bool, fast_forward: bool, play: bool) -> (mode: Transport)
        ensures
            mode == Self::selected(reverse, fast_forward, play),
            mode is Idle <==> !(reverse || fast_forward || play),
    {
        if reverse {
            Transport::Reverse
        } else if fast_forward {
            Transport::FastForward
        } else if play {
            Transport::Play
        } else {
            Transport::Idle
        }
    }

    /// Whether the loop records and plays in this mode.
    pub fn is_engaged(self) -> (engaged: bool)
        ensures
            engaged == !(self is Idle),
    {
        match self {
            Transport::Idle => false,
            _ => true,
        }
    }
}

impl Tape {
    /// This tape after the head has moved as `mode` says.
    pub open spec fn advanced(self, mode: Transport) -> Tape {
        match mode {
            Transport::Idle => self,
            Transport::Play => self.played(),
            Transport::Reverse => self.reversed(),
            Transport::FastForward => self.fast_forwarded(),
        }
    }
}

impl TAPESTATE {
    /// Moves the head as `mode` says. The store does not change. An idle
    /// transport moves nothing, also over a store that has not been sized.
    pub fn advance(&mut self, mode: Transport)
        requires
            old(self)@.inv(),
            !(mode is Idle) ==> old(self)@.ready(),
        ensures
            final(self)@ == old(self)@.advanced(mode),
            final(self)@.inv(),
            old(self)@.ready() ==> final(self)@.ready(),
    {
        match mode {
            Transport::Idle => {},
            Transport::Play => self.inc_sample_idx(),
            Transport::Reverse => self.dec_sample_idx(),
            Transport::FastForward => self.fast_forward(),
        }
    }
}

} // verus!
