//! Flags of a single I2C message.

use vstd::prelude::*;

verus! {

/// The message reads from the device; without it the message writes.
pub const RD: u16 = 0x0001;

/// The device has a ten-bit address.
pub const TEN: u16 = 0x0010;

/// The buffer of the message can be handed to DMA as it is.
pub const DMA_SAFE: u16 = 0x0200;

/// The first byte received tells how many bytes follow.
pub const RECV_LEN: u16 = 0x0400;

/// Bytes read are not acknowledged.
pub const NO_RD_ACK: u16 = 0x0800;

/// A missing acknowledge from the device is not an error.
pub const IGNORE_NAK: u16 = 0x1000;

/// The direction bit of the address is sent inverted.
pub const REV_DIR_ADDR: u16 = 0x2000;

/// The message continues the one before it without a new start condition.
pub const NOSTART: u16 = 0x4000;

/// A stop condition follows the message.
pub const STOP: u16 = 0x8000;

} // verus!
