//! Display tuning for a desktop tray application: gamma ramps built from
//! per-level values, the NVIDIA digital-vibrance session, the messages shown
//! to the user, the tray menu and the autostart registry commands.
//!
//! Everything here is pure computation over plain values; the platform calls
//! themselves (GDI, the magnification API, NVAPI, the registry tool, the tray)
//! are made by the application around this library.

pub mod text;
pub mod gamma;
pub mod effect;
pub mod vibrance;
pub mod autostart;
pub mod tray;
