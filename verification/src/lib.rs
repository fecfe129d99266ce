//! Core of a keyboard layer-status watcher: discovery of the target HID
//! device, the connection lifecycle, and decoding of the vendor-specific
//! layer-status report.
//!
//! The library is pure logic: it decides, it never performs device I/O.
//! A host program enumerates, opens and reads devices, hands the results
//! to the state machine in [`connection`], and carries out the actions it
//! returns.

use vstd::prelude::*;

pub mod codec;
pub mod connection;
pub mod format;
pub mod matcher;
pub mod settings;
pub mod shell;

verus! {

/// Reserved application identifier expected in byte 0 of every raw report.
pub const RAW_APP_ID_ZQ: u8 = 0xFF;

/// Supported protocol version expected in byte 1 of every raw report.
pub const RAW_REPORT_VERSION: u8 = 0x01;

/// Report-type tag for layer-status reports, expected in byte 2.
pub const RAW_REPORT_TYPE_LAYER: u8 = 0x00;

/// Vendor id of the device watched when no other target is configured.
pub const DEFAULT_VENDOR_ID: u16 = 0x5957;

/// Product id of the device watched when no other target is configured.
pub const DEFAULT_PRODUCT_ID: u16 = 0x0200;

/// Usage page of the endpoint watched when no other target is configured.
pub const DEFAULT_USAGE_PAGE: u16 = 0xFF60;

/// Usage of the endpoint watched when no other target is configured.
pub const DEFAULT_USAGE: u16 = 0x61;

/// How long the host should sleep, in milliseconds, before retrying after
/// a failed seek or a read error.
pub const ENUM_POLL_INTERVAL_MS: u64 = 500;

} // verus!
