//! The layer between a host that calls back through fixed tables and typed
//! implementations of what it calls.
//!
//! The host knows drivers and files as records of names, numbers and
//! callbacks. On the other side stand typed implementations: an
//! [`i2c::Driver`] for chips on a bus, [`procfs::Operations`] for a file.
//! This library is what lies between the two:
//!
//! - [`id_table`] builds the table of device identifiers that the host scans,
//!   and finds the auxiliary data of the record that matched;
//! - [`handle`] keeps the context of a device or an open file while the host
//!   holds it, and hands it back exactly once;
//! - [`procfs`] builds the table of callbacks in which the host finds what an
//!   implementation provides, and holds the callbacks themselves;
//! - [`i2c`] binds and unbinds devices and bounds the transfers to them;
//! - [`error`] maps typed errors to the codes of the host and back.
//!
//! [`mcom_fpga`] and [`rust_procfs`] are a driver and a file built on it.

pub mod error;
pub mod file;
pub mod handle;
pub mod i2c;
pub mod id_table;
pub mod mcom_fpga;
pub mod procfs;
pub mod rust_procfs;
