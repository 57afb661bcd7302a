use vstd::prelude::*;

verus! {

/// Report ID that prefixes every frame sent to the device.
pub const REPORT_ID: u8 = 0x01;

/// Opcode of the fade command (ASCII `c`).
pub const FADE_COMMAND_ACTION: u8 = 0x63;

/// Opcode of the set-immediately command (ASCII `n`).
pub const IMMEDIATE_COMMAND_ACTION: u8 = 0x6e;

/// Opcode that writes one step of the stored animation pattern.
pub const SET_LINE_PATTERN_ACTION: u8 = 0x50;

/// Opcode that selects the LED used by later pattern writes.
pub const SET_LED_NUM_ACTION: u8 = 0x6c;

/// Opcode that starts or stops playback of the stored pattern.
pub const PLAY_LOOP_ACTION: u8 = 0x70;

/// Vendor ID of the device.
pub const VENDOR_ID: u16 = 0x27b8;

/// Product ID of the device.
pub const PRODUCT_ID: u16 = 0x01ed;

/// Report type "feature", shifted into the high byte of the request value.
pub const HID_FEATURE: u16 = 0x0300;

/// The HID class request SET_REPORT.
pub const HID_SET_REPORT: u8 = 0x09;

} // verus!
