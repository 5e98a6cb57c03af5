//! Monitoring core for a small fleet of simulated vehicle control units:
//! battery-cell and perception sensors, their anomaly detection, and the
//! shared dashboard state that their polling loops publish into.

pub mod text;
pub mod window;
pub mod sensor;
pub mod dashboard;
mod random;
