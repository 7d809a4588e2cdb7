use vstd::prelude::*;

verus! {

/// Bank angle, in degrees, that the agent leans towards while turning.
pub const BANK_DEGREES: i32 = 45;

/// Largest climb or dive angle, in degrees.
pub const PITCH_LIMIT_DEGREES: i32 = 80;

/// Slowest airspeed, in world units per second.
pub const MIN_SPEED: i32 = 10;

/// Fastest airspeed, in world units per second.
pub const MAX_SPEED: i32 = 100;

/// Airspeed at spawn and after a restart, in world units per second.
pub const START_SPEED: i32 = 25;

/// Altitude of the agent when the game starts, in world units.
pub const SPAWN_ALTITUDE: i64 = 30;

/// Altitude of the agent after a restart, in world units.
pub const RESTART_ALTITUDE: i64 = 40;

/// Sense in which one control axis moves.
#[derive(Clone, Copy, Debug, PartialEq, Eq, Structural)]
pub enum Direction {
    Negative,
    Neutral,
    Positive,
}

/// The flight controls held during a frame.
#[derive(Clone, Copy, Debug, PartialEq, Eq, Structural)]
pub struct Controls {
    pub turn_left: bool,
    pub turn_right: bool,
    pub pitch_up: bool,
    pub pitch_down: bool,
    pub throttle_up: bool,
    pub throttle_down: bool,
}

/// What the held controls ask of the flight model.
#[derive(Clone, Copy, Debug, PartialEq, Eq, Structural)]
pub struct Steering {
    /// Yaw sense: `Negative` turns left.
    pub turn: Direction,
    /// Pitch sense: `Positive` climbs.
    pub pitch: Direction,
    /// Speed sense: `Positive` accelerates.
    pub throttle: Direction,
    /// Roll angle, in degrees, that the current roll is eased towards.
    pub bank_degrees: i32,
}

/// One axis from its two controls: the first one checked wins when both are held.
pub open spec fn axis(first: bool, first_dir: Direction, second: bool, second_dir: Direction) -> Direction {
    if first {
        first_dir
    } else if second {
        second_dir
    } else {
        Direction::Neutral
    }
}

/// The steering that a set of held controls resolves to. Left is checked
/// before right, up before down, and accelerating before braking.
pub open spec fn steering_spec(c: Controls) -> Steering {
    let turn = axis(c.turn_left, Direction::Negative, c.turn_right, Direction::Positive);
    Steering {
        turn,
        pitch: axis(c.pitch_up, Direction::Positive, c.pitch_down, Direction::Negative),
        throttle: axis(c.throttle_up, Direction::Positive, c.throttle_down, Direction::Negative),
        bank_degrees: match turn {
            Direction::Negative => (-BANK_DEGREES) as i32,
            Direction::Neutral => 0,
            Direction::Positive => BANK_DEGREES,
        },
    }
}

/// Resolves the held controls into one sense per axis and a bank target.
pub fn steer(c: &Controls) -> (r: Steering)
    ensures
        r == steering_spec(*c),
{
    let (turn, bank_degrees) = if c.turn_left {
        (Direction::Negative, -BANK_DEGREES)
    } else if c.turn_right {
        (Direction::Positive, BANK_DEGREES)
    } else {
        (Direction::Neutral, 0)
    };
    let pitch = if c.pitch_up {
        Direction::Positive
    } else if c.pitch_down {
        Direction::Negative
    } else {
        Direction::Neutral
    };
    let throttle = if c.throttle_up {
        Direction::Positive
    } else if c.throttle_down {
        Direction::Negative
    } else {
        Direction::Neutral
    };
    Steering { turn, pitch, throttle, bank_degrees }
}

} // verus!
