//! Control of per-device RGB keyboard lighting ("Aura") on ASUS laptops.
//!
//! The library resolves which physical control path is present (a raw HID
//! vendor device or a sysfs LED attribute), holds the merged runtime
//! configuration, translates requested effects into fixed-layout binary
//! packets, and implements the per-key streaming protocol's state.
//!
//! Device probing, file reads and writes, and configuration serialization are
//! left to the embedding program: the controller queues the exact bytes to be
//! written, and the embedding program delivers them to the hardware.

pub mod aura;
pub mod config;
pub mod controller;
pub mod cycling;
pub mod error;
pub mod laptops;
pub mod mode_map;
pub mod packets;
pub mod seq_facts;
