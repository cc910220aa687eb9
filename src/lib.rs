//! Control core of a single-button, battery-powered current driver: the
//! drive-mode register that a button press advances, and the periodic
//! monitor that watches the load, drives the status indicators and decides
//! when the device must power down.

pub mod drive;
pub mod monitor;
