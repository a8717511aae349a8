//! Interaction modes and the world-side state the renderer core reads.
//!
//! The world owns the renderable entities; the core consumes them through
//! the scene aggregator. What the core itself keeps of the world is small:
//! the current interaction mode (which camera component keyboard input
//! steers) and a monotone tick counter that world collaborators such as the
//! sky animation key off.

use vstd::prelude::*;

verus! {

/// Which camera component keyboard input currently steers.
#[derive(Debug, Copy, Clone, PartialEq, Eq, Structural)]
pub enum Mode {
    MoveCameraPos,
    MoveCameraFront,
    MoveCameraUp,
}

/// The keys the world and the shutdown path react to; every other key is
/// only forwarded to the camera.
#[derive(Debug, Copy, Clone, PartialEq, Eq, Structural)]
pub enum Key {
    Escape,
    Q,
    Other,
}

impl Mode {
    /// The mode that follows `self` in the fixed cycle
    /// pos -> front -> up -> pos.
    pub open spec fn spec_next(self) -> Mode {
        match self {
            Mode::MoveCameraPos => Mode::MoveCameraFront,
            Mode::MoveCameraFront => Mode::MoveCameraUp,
            Mode::MoveCameraUp => Mode::MoveCameraPos,
        }
    }

    /// Advance to the next interaction mode in the cycle.
    pub fn next(&self) -> (m: Mode)
        ensures
            m == self.spec_next(),
    {
        match self {
            Mode::MoveCameraPos => Mode::MoveCameraFront,
            Mode::MoveCameraFront => Mode::MoveCameraUp,
            Mode::MoveCameraUp => Mode::MoveCameraPos,
        }
    }
}

/// The slice of world state the verified core carries between frames.
#[derive(Debug, Copy, Clone, PartialEq, Eq, Structural)]
pub struct World {
    /// Current interaction mode.
    pub mode: Mode,
    /// World clock: one step per render tick.
    pub ticks: u64,
}

/// The world after one keyboard reaction: escape cycles the interaction
/// mode, every other key leaves the world untouched.
pub open spec fn spec_react(w: World, key: Key) -> World {
    if key is Escape {
        World { mode: w.mode.spec_next(), ..w }
    } else {
        w
    }
}

impl World {
    /// A fresh world in the initial interaction mode.
    pub fn new() -> (w: World)
        ensures
            w.mode == Mode::MoveCameraPos,
            w.ticks == 0,
    {
        World { mode: Mode::MoveCameraPos, ticks: 0 }
    }

    /// Advance the world clock by one step.
    pub fn tick(&mut self)
        requires
            old(self).ticks < u64::MAX,
        ensures
            final(self).ticks == old(self).ticks + 1,
            final(self).mode == old(self).mode,
    {
        self.ticks = self.ticks + 1;
    }

    /// Cycle to the next interaction mode.
    pub fn command(&mut self)
        ensures
            final(self).mode == old(self).mode.spec_next(),
            final(self).ticks == old(self).ticks,
    {
        self.mode = self.mode.next();
    }

    /// React to a key: escape issues the mode-cycling command, any other
    /// key changes nothing here.
    pub fn react(&mut self, key: Key)
        ensures
            *final(self) == spec_react(*old(self), key),
    {
        match key {
            Key::Escape => self.command(),
            _ => (),
        }
    }
}

} // verus!
