//! Control logic of a Bluetooth Low Energy heart-rate peripheral.
//!
//! The library holds the parts of such a device that are pure decisions and
//! data: the GATT catalog and its registration bookkeeping, the read
//! dispatcher, the connection state machine, the periodic notification
//! scheduler, and the advertising payload builder.  Everything that talks to
//! a real BLE stack (starting advertising, delivering a notification,
//! running timers) is expressed as values these functions return, so that a
//! thin unverified shell can perform them.

pub mod access;
pub mod advertise;
pub mod catalog;
pub mod identity;
pub mod scheduler;
pub mod session;
