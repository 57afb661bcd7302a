use vstd::prelude::*;

use crate::constants::{HID_FEATURE, PRODUCT_ID, VENDOR_ID};
use crate::error::BlinkError;

verus! {

/// Whether a USB device descriptor describes a blink(1): the vendor and product IDs
/// match and the device has at least one configuration.
pub fn is_blinker_descriptor(num_configurations: u8, vendor_id: u16, product_id: u16) -> (r: bool)
    ensures
        r == (num_configurations > 0 && product_id == PRODUCT_ID && vendor_id == VENDOR_ID),
{
    num_configurations > 0 && product_id == PRODUCT_ID && vendor_id == VENDOR_ID
}

/// The value field of the SET_REPORT request that carries a frame: report type
/// "feature" in the high byte, the frame's report ID in the low byte.
pub fn report_value(buffer: &[u8; 8]) -> (r: u16)
    ensures
        r as int == 0x0300 + buffer@[0],
{
    let id: u8 = buffer[0];
    let r: u16 = HID_FEATURE | (id as u16);
    assert((0x0300u16 | (id as u16)) == 0x0300u16 + (id as u16)) by (bit_vector)
        requires
            id < 256,
    ;
    r
}

/// Folds the result of sending a frame to one more device into the running total of
/// bytes written. The first failure ends the run and is reported unchanged; the total
/// saturates at the largest `usize`.
pub fn record_outcome(total: usize, outcome: Result<usize, BlinkError>) -> (r: Result<
    usize,
    BlinkError,
>)
    ensures
        match outcome {
            Ok(n) => r == Ok::<usize, BlinkError>(
                if total + n > usize::MAX {
                    usize::MAX
                } else {
                    (total + n) as usize
                },
            ),
            Err(e) => r == Err::<usize, BlinkError>(e),
        },
{
    match outcome {
        Ok(n) => Ok(total.saturating_add(n)),
        Err(e) => Err(e),
    }
}

} // verus!
