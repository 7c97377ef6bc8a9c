//! Discovery of attached debug probes and serial ports, and the registry of
//! supported board names.
pub mod boards;
pub mod devices;
