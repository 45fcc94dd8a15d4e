//! Runtime of a self-organising mesh of hexagonal LED cells.

pub mod bounded;
pub mod display;
pub mod grid;
pub mod hexapi_errors;
pub mod hexcell;
pub mod hexcore;
pub mod hexcore_errors;
pub mod logging;
pub mod messaging;
pub mod networking;
pub mod patterns;
pub mod ports;
pub mod scheduler;
pub mod timer;
