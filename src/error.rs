use vstd::prelude::*;

verus! {

/// Error of the USB transport (rusb::Error), carried through unchanged.
#[verifier::external_type_specification]
#[verifier::external_body]
pub struct ExUsbError(rusb::Error);

/// An error from talking to the device over USB.
#[derive(Debug)]
pub enum BlinkError {
    /// A device lacks something the transmission needs, such as an interface.
    NotFound,
    /// The USB transport failed: listing, opening or writing to a device.
    DeviceListError(rusb::Error),
}

impl From<rusb::Error> for BlinkError {
    fn from(error: rusb::Error) -> (r: BlinkError) {
        BlinkError::DeviceListError(error)
    }
}

impl vstd::std_specs::convert::FromSpecImpl<rusb::Error> for BlinkError {
    open spec fn obeys_from_spec() -> bool {
        true
    }

    open spec fn from_spec(error: rusb::Error) -> BlinkError {
        BlinkError::DeviceListError(error)
    }
}

impl BlinkError {
    /// A short description of the error.
    pub fn description(&self) -> (r: &'static str)
        ensures
            r@ == (match self {
                BlinkError::NotFound => "not found"@,
                BlinkError::DeviceListError(_) => "unable to find usb device"@,
            }),
    {
        match self {
            BlinkError::NotFound => "not found",
            BlinkError::DeviceListError(_e) => "unable to find usb device",
        }
    }
}

} // verus!
