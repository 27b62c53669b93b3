//! Decisions of a pair of CLAP audio effects, a saturator and a compressor: their
//! parameters, how host events reach them, how their values are shown and read back,
//! their saved state, their audio ports and the plugin factory that offers them.
pub mod text;
pub mod params;
pub mod descriptor;
pub mod heater;
pub mod vice;
pub mod state;
pub mod ports;
pub mod process;
pub mod entry;
