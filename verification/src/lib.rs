//! A verified flight-control stack for a simulated hover vehicle.
//!
//! The crate provides single-axis PID controllers (altitude, horizontal
//! cruise velocity, and attitude), an engine on/off state machine that gates
//! every controller, and a manual setpoint governor that turns held commands
//! into rate-limited, bounded target changes.  All quantities are carried as
//! saturating fixed-point numbers (an `i64` count of millionths of a unit),
//! so every computation here is exact integer arithmetic with a proved
//! contract.  The surrounding physics integration, rendering and input
//! plumbing are the host's business: it hands a [`control::VehicleState`]
//! snapshot and a per-tick [`control::SimulationInput`] in, and applies the
//! returned force/torque command.

pub mod angle;
pub mod control;
pub mod fixed;
pub mod governor;
pub mod pid;
