//! The closed sets of categories that the native layer defines, and the
//! integer tags by which it names them.

use vstd::prelude::*;
use crate::error::ComputerError;

verus! {

/// The class of a monitored device.
#[derive(Debug, Clone, Copy, PartialEq, Eq, Hash, Structural)]
pub enum FFIHardwareType {
    Mainboard,
    SuperIO,
    CPU,
    RAM,
    GpuNvidia,
    GpuAti,
    TBalancer,
    Heatmaster,
    HDD,
}

/// The class of a measurement channel.
#[derive(Debug, Clone, Copy, PartialEq, Eq, Hash, Structural)]
pub enum FFISensorType {
    /// Volts.
    Voltage,
    /// Megahertz.
    Clock,
    /// Degrees Celsius.
    Temperature,
    /// Percent.
    Load,
    /// Revolutions per minute.
    Fan,
    /// Litres per hour.
    Flow,
    /// Percent.
    Control,
    /// Percent.
    Level,
    /// A plain ratio.
    Factor,
    /// Watts.
    Power,
    /// Gigabytes.
    Data,
    /// Megabytes.
    SmallData,
    /// Megabytes per second.
    Throughput,
}

impl FFIHardwareType {
    /// The tag by which the native layer names this class.
    pub open spec fn spec_tag(self) -> i32 {
        match self {
            FFIHardwareType::Mainboard => 0,
            FFIHardwareType::SuperIO => 1,
            FFIHardwareType::CPU => 2,
            FFIHardwareType::RAM => 3,
            FFIHardwareType::GpuNvidia => 4,
            FFIHardwareType::GpuAti => 5,
            FFIHardwareType::TBalancer => 6,
            FFIHardwareType::Heatmaster => 7,
            FFIHardwareType::HDD => 8,
        }
    }

    /// The class that `tag` names, if it names one.
    pub open spec fn spec_from_tag(tag: i32) -> Option<FFIHardwareType> {
        if tag == 0 {
            Some(FFIHardwareType::Mainboard)
        } else if tag == 1 {
            Some(FFIHardwareType::SuperIO)
        } else if tag == 2 {
            Some(FFIHardwareType::CPU)
        } else if tag == 3 {
            Some(FFIHardwareType::RAM)
        } else if tag == 4 {
            Some(FFIHardwareType::GpuNvidia)
        } else if tag == 5 {
            Some(FFIHardwareType::GpuAti)
        } else if tag == 6 {
            Some(FFIHardwareType::TBalancer)
        } else if tag == 7 {
            Some(FFIHardwareType::Heatmaster)
        } else if tag == 8 {
            Some(FFIHardwareType::HDD)
        } else {
            None
        }
    }

    /// Gives the tag of this class.
    pub fn tag(self) -> (tag: i32)
        ensures
            tag == self.spec_tag(),
            0 <= tag <= 8,
            Self::spec_from_tag(tag) == Some(self),
    {
        match self {
            FFIHardwareType::Mainboard => 0,
            FFIHardwareType::SuperIO => 1,
            FFIHardwareType::CPU => 2,
            FFIHardwareType::RAM => 3,
            FFIHardwareType::GpuNvidia => 4,
            FFIHardwareType::GpuAti => 5,
            FFIHardwareType::TBalancer => 6,
            FFIHardwareType::Heatmaster => 7,
            FFIHardwareType::HDD => 8,
        }
    }

    /// Reads a tag. A tag outside `0..=8` names no class and is refused; it is
    /// never mapped to a default.
    pub fn from_tag(tag: i32) -> (class: Result<FFIHardwareType, ComputerError>)
        ensures
            class is Ok <==> 0 <= tag <= 8,
            match class {
                Ok(c) => Self::spec_from_tag(tag) == Some(c) && c.spec_tag() == tag,
                Err(e) => Self::spec_from_tag(tag) is None && e == ComputerError::Category,
            },
    {
        match tag {
            0 => Ok(FFIHardwareType::Mainboard),
            1 => Ok(FFIHardwareType::SuperIO),
            2 => Ok(FFIHardwareType::CPU),
            3 => Ok(FFIHardwareType::RAM),
            4 => Ok(FFIHardwareType::GpuNvidia),
            5 => Ok(FFIHardwareType::GpuAti),
            6 => Ok(FFIHardwareType::TBalancer),
            7 => Ok(FFIHardwareType::Heatmaster),
            8 => Ok(FFIHardwareType::HDD),
            _ => Err(ComputerError::Category),
        }
    }
}

impl FFISensorType {
    /// The tag by which the native layer names this class.
    pub open spec fn spec_tag(self) -> i32 {
        match self {
            FFISensorType::Voltage => 0,
            FFISensorType::Clock => 1,
            FFISensorType::Temperature => 2,
            FFISensorType::Load => 3,
            FFISensorType::Fan => 4,
            FFISensorType::Flow => 5,
            FFISensorType::Control => 6,
            FFISensorType::Level => 7,
            FFISensorType::Factor => 8,
            FFISensorType::Power => 9,
            FFISensorType::Data => 10,
            FFISensorType::SmallData => 11,
            FFISensorType::Throughput => 12,
        }
    }

    /// The class that `tag` names, if it names one.
    pub open spec fn spec_from_tag(tag: i32) -> Option<FFISensorType> {
        if tag == 0 {
            Some(FFISensorType::Voltage)
        } else if tag == 1 {
            Some(FFISensorType::Clock)
        } else if tag == 2 {
            Some(FFISensorType::Temperature)
        } else if tag == 3 {
            Some(FFISensorType::Load)
        } else if tag == 4 {
            Some(FFISensorType::Fan)
        } else if tag == 5 {
            Some(FFISensorType::Flow)
        } else if tag == 6 {
            Some(FFISensorType::Control)
        } else if tag == 7 {
            Some(FFISensorType::Level)
        } else if tag == 8 {
            Some(FFISensorType::Factor)
        } else if tag == 9 {
            Some(FFISensorType::Power)
        } else if tag == 10 {
            Some(FFISensorType::Data)
        } else if tag == 11 {
            Some(FFISensorType::SmallData)
        } else if tag == 12 {
            Some(FFISensorType::Throughput)
        } else {
            None
        }
    }

    /// Gives the tag of this class.
    pub fn tag(self) -> (tag: i32)
        ensures
            tag == self.spec_tag(),
            0 <= tag <= 12,
            Self::spec_from_tag(tag) == Some(self),
    {
        match self {
            FFISensorType::Voltage => 0,
            FFISensorType::Clock => 1,
            FFISensorType::Temperature => 2,
            FFISensorType::Load => 3,
            FFISensorType::Fan => 4,
            FFISensorType::Flow => 5,
            FFISensorType::Control => 6,
            FFISensorType::Level => 7,
            FFISensorType::Factor => 8,
            FFISensorType::Power => 9,
            FFISensorType::Data => 10,
            FFISensorType::SmallData => 11,
            FFISensorType::Throughput => 12,
        }
    }

    /// Reads a tag. A tag outside `0..=12` names no class and is refused; it
    /// is never mapped to a default.
    pub fn from_tag(tag: i32) -> (class: Result<FFISensorType, ComputerError>)
        ensures
            class is Ok <==> 0 <= tag <= 12,
            match class {
                Ok(c) => Self::spec_from_tag(tag) == Some(c) && c.spec_tag() == tag,
                Err(e) => Self::spec_from_tag(tag) is None && e == ComputerError::Category,
            },
    {
        match tag {
            0 => Ok(FFISensorType::Voltage),
            1 => Ok(FFISensorType::Clock),
            2 => Ok(FFISensorType::Temperature),
            3 => Ok(FFISensorType::Load),
            4 => Ok(FFISensorType::Fan),
            5 => Ok(FFISensorType::Flow),
            6 => Ok(FFISensorType::Control),
            7 => Ok(FFISensorType::Level),
            8 => Ok(FFISensorType::Factor),
            9 => Ok(FFISensorType::Power),
            10 => Ok(FFISensorType::Data),
            11 => Ok(FFISensorType::SmallData),
            12 => Ok(FFISensorType::Throughput),
            _ => Err(ComputerError::Category),
        }
    }
}

} // verus!
