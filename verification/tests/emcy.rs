use funcan_rs::emcy::EmergencyClass;

#[test]
fn emergency_class_codes() {
    assert_eq!(EmergencyClass::GenericError.code(), 0x1000);
    assert_eq!(EmergencyClass::Communication.code(), 0x8100);
    assert_eq!(EmergencyClass::CanopenDeviceSpecific.code(), 0xFF00);
}

#[test]
fn emergency_class_from_code() {
    // only the high byte decides the class
    assert_eq!(
        EmergencyClass::from_code(0x8130),
        Some(EmergencyClass::Communication)
    );
    assert_eq!(
        EmergencyClass::from_code(0x0000),
        Some(EmergencyClass::ErrorResetOrNoError)
    );
    assert_eq!(EmergencyClass::from_code(0xA000), None);
}

#[test]
fn emergency_class_roundtrip() {
    let classes = [
        EmergencyClass::ErrorResetOrNoError,
        EmergencyClass::GenericError,
        EmergencyClass::Voltage,
        EmergencyClass::Temperature,
        EmergencyClass::ProtocolError,
        EmergencyClass::AdditionalFunctions,
        EmergencyClass::CanopenDeviceSpecific,
    ];
    for c in classes {
        assert_eq!(EmergencyClass::from_code(c.code()), Some(c));
    }
}
