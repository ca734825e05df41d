use open_hardware_monitor::{Computer, ComputerError, FFIGCHandle, FFIHardwareType, FFISensorType};

#[test]
fn handle_keeps_its_address() {
    let handle = FFIGCHandle::from_raw(0xdead_beef);
    assert_eq!(handle.as_raw(), 0xdead_beef);
    assert!(!handle.is_null());
    assert!(FFIGCHandle::null().is_null());
    assert_eq!(FFIGCHandle::null().as_raw(), 0);
    assert!(FFIGCHandle::from_raw(0).is_null());
    assert!(!FFIGCHandle::from_raw(1).is_null());
}

#[test]
fn error_messages() {
    assert_eq!(ComputerError::Null.message(), "pointer is null");
    assert_eq!(ComputerError::Text.message(), "text cannot be decoded");
    assert_eq!(ComputerError::Category.message(), "category tag is unknown");
}

#[test]
fn report_is_handed_on_unchanged() {
    let computer = Computer::new(FFIGCHandle::from_raw(1)).unwrap();
    let text = "Open Hardware Monitor Report\n\nSensors\n|\n+- CPU (/intelcpu/0) 42 °C\n";
    assert_eq!(computer.get_report(Some(text.to_string())), Ok(text.to_string()));
    assert_eq!(computer.get_report(Some(String::new())), Ok(String::new()));
}

#[test]
fn report_that_cannot_be_decoded_is_an_error() {
    let computer = Computer::new(FFIGCHandle::from_raw(1)).unwrap();
    assert_eq!(computer.get_report(None), Err(ComputerError::Text));
}

#[test]
fn hardware_tags() {
    let classes = [
        (0, FFIHardwareType::Mainboard),
        (1, FFIHardwareType::SuperIO),
        (2, FFIHardwareType::CPU),
        (3, FFIHardwareType::RAM),
        (4, FFIHardwareType::GpuNvidia),
        (5, FFIHardwareType::GpuAti),
        (6, FFIHardwareType::TBalancer),
        (7, FFIHardwareType::Heatmaster),
        (8, FFIHardwareType::HDD),
    ];
    for (tag, class) in classes {
        assert_eq!(FFIHardwareType::from_tag(tag), Ok(class));
        assert_eq!(class.tag(), tag);
    }
    for tag in [-1, 9, 10, 255, i32::MIN, i32::MAX] {
        assert_eq!(FFIHardwareType::from_tag(tag), Err(ComputerError::Category));
    }
}

#[test]
fn sensor_tags() {
    let classes = [
        (0, FFISensorType::Voltage),
        (1, FFISensorType::Clock),
        (2, FFISensorType::Temperature),
        (3, FFISensorType::Load),
        (4, FFISensorType::Fan),
        (5, FFISensorType::Flow),
        (6, FFISensorType::Control),
        (7, FFISensorType::Level),
        (8, FFISensorType::Factor),
        (9, FFISensorType::Power),
        (10, FFISensorType::Data),
        (11, FFISensorType::SmallData),
        (12, FFISensorType::Throughput),
    ];
    for (tag, class) in classes {
        assert_eq!(FFISensorType::from_tag(tag), Ok(class));
        assert_eq!(class.tag(), tag);
    }
    for tag in [-1, 13, 14, 255, i32::MIN, i32::MAX] {
        assert_eq!(FFISensorType::from_tag(tag), Err(ComputerError::Category));
    }
}
