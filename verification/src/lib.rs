//! Force-feedback rumble decisions for a flight-simulator add-on.
//!
//! The numeric signal shaping of the rumble engine works on floating-point
//! flight variables and lives outside this crate; what is decided here are the
//! discrete parts of each frame: which effects are active, which wheels have
//! just touched down, when the background smoothing restarts, and where the
//! settings file is looked for and written.
pub mod effects;
pub mod gear;
pub mod frame;
pub mod smoothing;
pub mod settings;
