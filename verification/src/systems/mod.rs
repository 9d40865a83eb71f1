pub mod failsafe;
pub mod power;
pub mod telemetry;
pub mod types;
