//! Control of programmable bench power supplies over Modbus RTU.
//!
//! The library holds the device model: the register table of each supported
//! SKU, the commands built from it, and the decoding of device replies.
//! Talking to the serial line is left to the caller.

pub mod address_table;
pub mod args;
pub mod psu;
pub mod text;
pub mod sku;
