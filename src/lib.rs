//! Simulation core of an arcade flight game: a seedless, infinite city grid,
//! collision queries against it, control resolution for the flight model, and
//! the per-frame session state machine (pause, crash, restart, simulated clock).
//!
//! Everything here works on integers. Positions are fixed point
//! (`space::FIXED_ONE` subdivisions per world unit), colours are bytes, and
//! time is counted in microseconds; the host converts to and from floats.

pub mod flight;
pub mod session;
pub mod space;
pub mod world;
