use vstd::prelude::*;

use crate::space::Position;
use crate::world::{check_collision, collision_spec};

verus! {

/// What the game is doing, as the host shows it.
#[derive(Clone, Copy, Debug, PartialEq, Eq, Structural)]
pub enum Phase {
    Flying,
    Crashed,
    Paused,
}

/// The keys that the session reacts to.
#[derive(Clone, Copy, Debug, PartialEq, Eq, Structural)]
pub enum Key {
    Pause,
    Restart,
    Other,
}

/// What one frame may advance.
#[derive(Clone, Copy, Debug, PartialEq, Eq, Structural)]
pub struct FramePlan {
    /// Simulated time that passes in this frame, in microseconds; the sky
    /// advances by this much.
    pub sim_dt_micros: u64,
    /// Whether the flight model integrates this frame.
    pub fly: bool,
}

/// Game state of one play session, together with the simulated clock.
///
/// The wall clock belongs to the host; the simulated clock here advances only
/// while the game is not paused.
#[derive(Clone, Copy, Debug, PartialEq, Eq, Structural)]
pub struct Session {
    /// The agent has hit something and waits for a restart.
    pub crashed: bool,
    /// Gameplay and sky are frozen.
    pub paused: bool,
    /// The pause key is held down, so its repeats do not toggle again.
    pub pause_key_down: bool,
    /// Simulated time since the start, in microseconds.
    pub sim_micros: u64,
}

impl Session {
    /// The phase that the host shows: a pause hides a crash beneath it.
    pub open spec fn phase_spec(&self) -> Phase {
        if self.paused {
            Phase::Paused
        } else if self.crashed {
            Phase::Crashed
        } else {
            Phase::Flying
        }
    }

    /// A fresh session: flying, unpaused, at simulated time zero.
    pub fn new() -> (r: Session)
        ensures
            !r.crashed,
            !r.paused,
            !r.pause_key_down,
            r.sim_micros == 0,
    {
        Session { crashed: false, paused: false, pause_key_down: false, sim_micros: 0 }
    }

    pub fn phase(&self) -> (r: Phase)
        ensures
            r == self.phase_spec(),
    {
        if self.paused {
            Phase::Paused
        } else if self.crashed {
            Phase::Crashed
        } else {
            Phase::Flying
        }
    }

    /// Handles a key press (repeats included). The pause key toggles the pause
    /// on its first press only; the restart key clears a crash and the pause.
    /// Returns whether the host must put the agent back to its restart pose.
    pub fn key_pressed(&mut self, key: Key) -> (reset: bool)
        ensures
            reset == (key == Key::Restart && old(self).crashed),
            final(self).sim_micros == old(self).sim_micros,
            final(self).pause_key_down == (old(self).pause_key_down || key == Key::Pause),
            final(self).crashed == (old(self).crashed && !reset),
            final(self).paused == if reset {
                false
            } else if key == Key::Pause && !old(self).pause_key_down {
                !old(self).paused
            } else {
                old(self).paused
            },
    {
        match key {
            Key::Pause => {
                if !self.pause_key_down {
                    self.paused = !self.paused;
                    self.pause_key_down = true;
                }
                false
            },
            Key::Restart => {
                if self.crashed {
                    self.crashed = false;
                    self.paused = false;
                    true
                } else {
                    false
                }
            },
            Key::Other => false,
        }
    }

    /// Handles a key release: releasing the pause key arms the next toggle.
    pub fn key_released(&mut self, key: Key)
        ensures
            final(self).pause_key_down == (old(self).pause_key_down && key != Key::Pause),
            final(self).crashed == old(self).crashed,
            final(self).paused == old(self).paused,
            final(self).sim_micros == old(self).sim_micros,
    {
        if key == Key::Pause {
            self.pause_key_down = false;
        }
    }

    /// Starts a frame that took `wall_micros` of wall-clock time. While paused
    /// nothing advances; otherwise the simulated clock advances by the whole
    /// wall time (stopping at `u64::MAX`), and the agent flies unless crashed.
    pub fn begin_frame(&mut self, wall_micros: u64) -> (plan: FramePlan)
        ensures
            plan.sim_dt_micros == if old(self).paused { 0 } else { wall_micros },
            plan.fly == (!old(self).paused && !old(self).crashed),
            final(self).sim_micros == if old(self).paused {
                old(self).sim_micros as int
            } else if old(self).sim_micros + wall_micros > u64::MAX {
                u64::MAX as int
            } else {
                old(self).sim_micros + wall_micros
            },
            final(self).crashed == old(self).crashed,
            final(self).paused == old(self).paused,
            final(self).pause_key_down == old(self).pause_key_down,
    {
        if self.paused {
            FramePlan { sim_dt_micros: 0, fly: false }
        } else {
            self.sim_micros = self.sim_micros.saturating_add(wall_micros);
            FramePlan { sim_dt_micros: wall_micros, fly: !self.crashed }
        }
    }

    /// Ends a frame in which the agent flew to `pos`; `None` stands for a
    /// position with a non-finite coordinate, which counts as a crash. Only a
    /// flying agent can crash. Returns whether this frame crashed it.
    pub fn after_flight(&mut self, pos: Option<Position>) -> (hit: bool)
        ensures
            hit == (!old(self).crashed && !old(self).paused && match pos {
                Some(p) => collision_spec(p),
                None => true,
            }),
            final(self).crashed == (old(self).crashed || hit),
            final(self).paused == old(self).paused,
            final(self).pause_key_down == old(self).pause_key_down,
            final(self).sim_micros == old(self).sim_micros,
    {
        if self.crashed || self.paused {
            return false;
        }
        let hit = match pos {
            Some(p) => check_collision(p),
            None => true,
        };
        if hit {
            self.crashed = true;
        }
        hit
    }
}

} // verus!
