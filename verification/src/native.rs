//! The records that the native layer fills in, one per array slot.

use vstd::prelude::*;
use crate::category::{FFIHardwareType, FFISensorType};
use crate::handle::FFIGCHandle;
use crate::helpers::Zeroed;

verus! {

/// One slot of a native array of devices.
#[derive(Debug)]
pub struct FFIHardware {
    /// The handle of the device.
    pub ptr: FFIGCHandle,
    /// The device's name as the native text decodes, or `None` where the slot
    /// holds no text that can be decoded.
    pub name: Option<String>,
    /// The tag of the device's class.
    pub hardware_type: i32,
}

/// One slot of a native array of measurement channels.
#[derive(Debug)]
pub struct FFISensor {
    /// The handle of the channel.
    pub ptr: FFIGCHandle,
    /// The channel's name as the native text decodes, or `None` where the
    /// slot holds no text that can be decoded.
    pub name: Option<String>,
    /// The tag of the channel's class.
    pub sensor_type: i32,
}

impl FFIHardware {
    /// Whether the record holds a live handle, a decoded name and the tag of
    /// a class.
    pub open spec fn is_valid(&self) -> bool {
        &&& self.ptr@ != 0
        &&& self.name is Some
        &&& FFIHardwareType::spec_from_tag(self.hardware_type) is Some
    }
}

impl FFISensor {
    /// Whether the record holds a live handle, a decoded name and the tag of
    /// a class.
    pub open spec fn is_valid(&self) -> bool {
        &&& self.ptr@ != 0
        &&& self.name is Some
        &&& FFISensorType::spec_from_tag(self.sensor_type) is Some
    }
}

impl Zeroed for FFIHardware {
    open spec fn is_zeroed(&self) -> bool {
        &&& self.ptr@ == 0
        &&& self.name is None
        &&& self.hardware_type == 0
    }

    fn zeroed() -> (zero: Self) {
        FFIHardware { ptr: FFIGCHandle::null(), name: None, hardware_type: 0 }
    }
}

impl Zeroed for FFISensor {
    open spec fn is_zeroed(&self) -> bool {
        &&& self.ptr@ == 0
        &&& self.name is None
        &&& self.sensor_type == 0
    }

    fn zeroed() -> (zero: Self) {
        FFISensor { ptr: FFIGCHandle::null(), name: None, sensor_type: 0 }
    }
}

} // verus!
