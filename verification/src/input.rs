//! From the keys that are held down to a request for a heading.

use vstd::prelude::*;
use crate::direction::Direction;
use crate::snake::{Snake, SnakeView};

verus! {

/// Which of the four steering keys are held down at the moment of sampling.
#[derive(Clone, Copy, Debug, PartialEq, Eq, Structural)]
pub struct KeyState {
    pub left: bool,
    pub right: bool,
    pub down: bool,
    pub up: bool,
}

impl KeyState {
    /// The heading that the held keys ask for. Where several are held, left
    /// wins over right, right over down, and down over up; where none is
    /// held, nothing is asked for.
    pub open spec fn spec_request(self) -> Option<Direction> {
        if self.left {
            Some(Direction::Left)
        } else if self.right {
            Some(Direction::Right)
        } else if self.down {
            Some(Direction::Down)
        } else if self.up {
            Some(Direction::Up)
        } else {
            None
        }
    }

    /// No key held.
    pub fn released() -> (r: KeyState)
        ensures
            r == (KeyState { left: false, right: false, down: false, up: false }),
            r.spec_request() is None,
    {
        KeyState { left: false, right: false, down: false, up: false }
    }

    /// The heading that the held keys ask for, if any.
    #[verifier::when_used_as_spec(spec_request)]
    pub fn request(self) -> (r: Option<Direction>)
        ensures
            r == self.spec_request(),
    {
        if self.left {
            Some(Direction::Left)
        } else if self.right {
            Some(Direction::Right)
        } else if self.down {
            Some(Direction::Down)
        } else if self.up {
            Some(Direction::Up)
        } else {
            None
        }
    }
}

impl SnakeView {
    /// The snake after one sampling of the keys.
    pub open spec fn steered(self, keys: KeyState) -> SnakeView {
        match keys.spec_request() {
            Some(d) => self.requested(d),
            None => self,
        }
    }
}

impl Snake {
    /// One sampling of the keys. The heading they ask for goes through the
    /// reversal filter; with no key held the pending heading stays.
    pub fn steer(&mut self, keys: KeyState)
        requires
            old(self)@.wf(),
        ensures
            final(self)@ == old(self)@.steered(keys),
            final(self)@.wf(),
    {
        match keys.request() {
            Some(d) => self.set_pending(d),
            None => {},
        }
    }
}

} // verus!
