use vstd::prelude::*;

verus! {

/// The error classes of Emergency (EMCY) frames, the high byte of the CiA
/// 301 emergency error code.
#[derive(Debug, Clone, Copy, PartialEq, Eq, Structural)]
pub enum EmergencyClass {
    ErrorResetOrNoError,
    GenericError,
    Current,
    CurrentCanopenDeviceInputSide,
    CurrentInsideTheCanopenDevice,
    CurrentCanopenDeviceOutputSide,
    Voltage,
    MainsVoltage,
    VoltageInsideTheCanopenDevice,
    OutputVoltage,
    Temperature,
    AmbientTemperature,
    CanopenDeviceTemperature,
    CanopenDeviceHardware,
    CanopenDeviceSoftware,
    InternalSoftware,
    UserSoftware,
    DataSet,
    AdditionalModules,
    Monitoring,
    Communication,
    ProtocolError,
    ExternalError,
    AdditionalFunctions,
    CanopenDeviceSpecific,
}

/// The 16-bit code of an emergency class.
pub open spec fn spec_emergency_class_code(c: EmergencyClass) -> u16 {
    match c {
        EmergencyClass::ErrorResetOrNoError => 0x0000,
        EmergencyClass::GenericError => 0x1000,
        EmergencyClass::Current => 0x2000,
        EmergencyClass::CurrentCanopenDeviceInputSide => 0x2100,
        EmergencyClass::CurrentInsideTheCanopenDevice => 0x2200,
        EmergencyClass::CurrentCanopenDeviceOutputSide => 0x2300,
        EmergencyClass::Voltage => 0x3000,
        EmergencyClass::MainsVoltage => 0x3100,
        EmergencyClass::VoltageInsideTheCanopenDevice => 0x3200,
        EmergencyClass::OutputVoltage => 0x3300,
        EmergencyClass::Temperature => 0x4000,
        EmergencyClass::AmbientTemperature => 0x4100,
        EmergencyClass::CanopenDeviceTemperature => 0x4200,
        EmergencyClass::CanopenDeviceHardware => 0x5000,
        EmergencyClass::CanopenDeviceSoftware => 0x6000,
        EmergencyClass::InternalSoftware => 0x6100,
        EmergencyClass::UserSoftware => 0x6200,
        EmergencyClass::DataSet => 0x6300,
        EmergencyClass::AdditionalModules => 0x7000,
        EmergencyClass::Monitoring => 0x8000,
        EmergencyClass::Communication => 0x8100,
        EmergencyClass::ProtocolError => 0x8200,
        EmergencyClass::ExternalError => 0x9000,
        EmergencyClass::AdditionalFunctions => 0xF000,
        EmergencyClass::CanopenDeviceSpecific => 0xFF00,
    }
}

/// The emergency class of a 16-bit error code, judged by its high byte;
/// `None` for a high byte that names no class.
pub open spec fn spec_emergency_class_of(value: u16) -> Option<EmergencyClass> {
    let h = ((value / 0x100) * 0x100) as u16;
    if h == 0x0000 {
        Some(EmergencyClass::ErrorResetOrNoError)
    } else if h == 0x1000 {
        Some(EmergencyClass::GenericError)
    } else if h == 0x2000 {
        Some(EmergencyClass::Current)
    } else if h == 0x2100 {
        Some(EmergencyClass::CurrentCanopenDeviceInputSide)
    } else if h == 0x2200 {
        Some(EmergencyClass::CurrentInsideTheCanopenDevice)
    } else if h == 0x2300 {
        Some(EmergencyClass::CurrentCanopenDeviceOutputSide)
    } else if h == 0x3000 {
        Some(EmergencyClass::Voltage)
    } else if h == 0x3100 {
        Some(EmergencyClass::MainsVoltage)
    } else if h == 0x3200 {
        Some(EmergencyClass::VoltageInsideTheCanopenDevice)
    } else if h == 0x3300 {
        Some(EmergencyClass::OutputVoltage)
    } else if h == 0x4000 {
        Some(EmergencyClass::Temperature)
    } else if h == 0x4100 {
        Some(EmergencyClass::AmbientTemperature)
    } else if h == 0x4200 {
        Some(EmergencyClass::CanopenDeviceTemperature)
    } else if h == 0x5000 {
        Some(EmergencyClass::CanopenDeviceHardware)
    } else if h == 0x6000 {
        Some(EmergencyClass::CanopenDeviceSoftware)
    } else if h == 0x6100 {
        Some(EmergencyClass::InternalSoftware)
    } else if h == 0x6200 {
        Some(EmergencyClass::UserSoftware)
    } else if h == 0x6300 {
        Some(EmergencyClass::DataSet)
    } else if h == 0x7000 {
        Some(EmergencyClass::AdditionalModules)
    } else if h == 0x8000 {
        Some(EmergencyClass::Monitoring)
    } else if h == 0x8100 {
        Some(EmergencyClass::Communication)
    } else if h == 0x8200 {
        Some(EmergencyClass::ProtocolError)
    } else if h == 0x9000 {
        Some(EmergencyClass::ExternalError)
    } else if h == 0xF000 {
        Some(EmergencyClass::AdditionalFunctions)
    } else if h == 0xFF00 {
        Some(EmergencyClass::CanopenDeviceSpecific)
    } else {
        None
    }
}

/// Every emergency class decodes back from its own code.
pub proof fn lemma_emergency_class_roundtrip(c: EmergencyClass)
    ensures
        spec_emergency_class_of(spec_emergency_class_code(c)) == Some(c),
{
}

impl EmergencyClass {
    /// The 16-bit code of this emergency class.
    pub fn code(self) -> (r: u16)
        ensures
            r == spec_emergency_class_code(self),
    {
        match self {
            EmergencyClass::ErrorResetOrNoError => 0x0000,
            EmergencyClass::GenericError => 0x1000,
            EmergencyClass::Current => 0x2000,
            EmergencyClass::CurrentCanopenDeviceInputSide => 0x2100,
            EmergencyClass::CurrentInsideTheCanopenDevice => 0x2200,
            EmergencyClass::CurrentCanopenDeviceOutputSide => 0x2300,
            EmergencyClass::Voltage => 0x3000,
            EmergencyClass::MainsVoltage => 0x3100,
            EmergencyClass::VoltageInsideTheCanopenDevice => 0x3200,
            EmergencyClass::OutputVoltage => 0x3300,
            EmergencyClass::Temperature => 0x4000,
            EmergencyClass::AmbientTemperature => 0x4100,
            EmergencyClass::CanopenDeviceTemperature => 0x4200,
            EmergencyClass::CanopenDeviceHardware => 0x5000,
            EmergencyClass::CanopenDeviceSoftware => 0x6000,
            EmergencyClass::InternalSoftware => 0x6100,
            EmergencyClass::UserSoftware => 0x6200,
            EmergencyClass::DataSet => 0x6300,
            EmergencyClass::AdditionalModules => 0x7000,
            EmergencyClass::Monitoring => 0x8000,
            EmergencyClass::Communication => 0x8100,
            EmergencyClass::ProtocolError => 0x8200,
            EmergencyClass::ExternalError => 0x9000,
            EmergencyClass::AdditionalFunctions => 0xF000,
            EmergencyClass::CanopenDeviceSpecific => 0xFF00,
        }
    }

    /// The emergency class a 16-bit error code belongs to, judged by its
    /// high byte.
    pub fn from_code(value: u16) -> (r: Option<EmergencyClass>)
        ensures
            r == spec_emergency_class_of(value),
    {
        let h = (value / 0x100) * 0x100;
        match h {
            0x0000 => Some(EmergencyClass::ErrorResetOrNoError),
            0x1000 => Some(EmergencyClass::GenericError),
            0x2000 => Some(EmergencyClass::Current),
            0x2100 => Some(EmergencyClass::CurrentCanopenDeviceInputSide),
            0x2200 => Some(EmergencyClass::CurrentInsideTheCanopenDevice),
            0x2300 => Some(EmergencyClass::CurrentCanopenDeviceOutputSide),
            0x3000 => Some(EmergencyClass::Voltage),
            0x3100 => Some(EmergencyClass::MainsVoltage),
            0x3200 => Some(EmergencyClass::VoltageInsideTheCanopenDevice),
            0x3300 => Some(EmergencyClass::OutputVoltage),
            0x4000 => Some(EmergencyClass::Temperature),
            0x4100 => Some(EmergencyClass::AmbientTemperature),
            0x4200 => Some(EmergencyClass::CanopenDeviceTemperature),
            0x5000 => Some(EmergencyClass::CanopenDeviceHardware),
            0x6000 => Some(EmergencyClass::CanopenDeviceSoftware),
            0x6100 => Some(EmergencyClass::InternalSoftware),
            0x6200 => Some(EmergencyClass::UserSoftware),
            0x6300 => Some(EmergencyClass::DataSet),
            0x7000 => Some(EmergencyClass::AdditionalModules),
            0x8000 => Some(EmergencyClass::Monitoring),
            0x8100 => Some(EmergencyClass::Communication),
            0x8200 => Some(EmergencyClass::ProtocolError),
            0x9000 => Some(EmergencyClass::ExternalError),
            0xF000 => Some(EmergencyClass::AdditionalFunctions),
            0xFF00 => Some(EmergencyClass::CanopenDeviceSpecific),
            _ => None,
        }
    }
}

} // verus!
