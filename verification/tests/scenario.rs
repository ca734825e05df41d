use open_hardware_monitor::{
    Computer, ComputerError, FFIGCHandle, FFIHardware, FFISensor, FFISensorType, Hardware, Sensor,
};

const ROOT: usize = 0x1000;
const CPU: usize = 0x2000;
const TEMPERATURE: usize = 0x3001;
const FAN: usize = 0x3002;

/// A native layer made for the tests: one computer with one device, which has
/// no children and two channels. Each refresh of the device moves its
/// channels on to their next reading.
struct StubNative {
    root: usize,
    temperatures: Vec<f32>,
    fan_speeds: Vec<f32>,
    refreshes: usize,
    opened: bool,
}

impl StubNative {
    fn new(temperatures: Vec<f32>, fan_speeds: Vec<f32>) -> Self {
        StubNative { root: ROOT, temperatures, fan_speeds, refreshes: 0, opened: false }
    }

    fn computer_new(&self) -> FFIGCHandle {
        FFIGCHandle::from_raw(self.root)
    }

    fn computer_open(&mut self, computer: &FFIGCHandle) {
        assert_eq!(computer.as_raw(), self.root);
        self.opened = true;
    }

    fn computer_get_report(&self, computer: &FFIGCHandle) -> Option<String> {
        assert_eq!(computer.as_raw(), self.root);
        Some("Report\n+- Intel Core i7 (/intelcpu/0)\n".to_string())
    }

    fn computer_get_hardwares(&self, computer: &FFIGCHandle) -> Vec<FFIHardware> {
        assert_eq!(computer.as_raw(), self.root);
        vec![FFIHardware {
            ptr: FFIGCHandle::from_raw(CPU),
            name: Some("Intel Core i7".to_string()),
            hardware_type: 2,
        }]
    }

    fn hardware_get_sub_hardwares(&self, hardware: &FFIGCHandle) -> Vec<FFIHardware> {
        assert_eq!(hardware.as_raw(), CPU);
        Vec::new()
    }

    fn hardware_get_sensors(&self, hardware: &FFIGCHandle) -> Vec<FFISensor> {
        assert_eq!(hardware.as_raw(), CPU);
        vec![
            FFISensor {
                ptr: FFIGCHandle::from_raw(TEMPERATURE),
                name: Some("CPU Package".to_string()),
                sensor_type: 2,
            },
            FFISensor {
                ptr: FFIGCHandle::from_raw(FAN),
                name: Some("Fan #1".to_string()),
                sensor_type: 4,
            },
        ]
    }

    fn hardware_update(&mut self, hardware: &FFIGCHandle) {
        assert_eq!(hardware.as_raw(), CPU);
        self.refreshes += 1;
    }

    fn sensor_get_value(&self, sensor: &FFIGCHandle) -> f32 {
        let readings = match sensor.as_raw() {
            TEMPERATURE => &self.temperatures,
            FAN => &self.fan_speeds,
            other => panic!("no channel at {:#x}", other),
        };
        readings[self.refreshes.min(readings.len() - 1)]
    }
}

fn open(native: &mut StubNative) -> Result<Computer, ComputerError> {
    let computer = Computer::new(native.computer_new())?;
    native.computer_open(computer.handle());
    Ok(computer)
}

fn hardwares(native: &StubNative, computer: &Computer) -> Result<Vec<Hardware>, ComputerError> {
    computer.get_hardwares(&mut native.computer_get_hardwares(computer.handle()))
}

fn sensors(native: &StubNative, hardware: &Hardware) -> Result<Vec<Sensor>, ComputerError> {
    hardware.get_sensors(&mut native.hardware_get_sensors(hardware.handle()))
}

#[test]
fn test_computer() {
    let mut native = StubNative::new(vec![38.0, 39.5], vec![900.0, 910.0]);
    let computer = open(&mut native).unwrap();
    println!("{}", computer.get_report(native.computer_get_report(computer.handle())).unwrap());

    let hardwares = hardwares(&native, &computer).unwrap();
    println!("Hardwares: {:#?}", hardwares);

    let hardware = &hardwares[0];
    native.hardware_update(hardware.handle());

    println!(
        "SubHardwares: {:#?}",
        hardware.get_sub_hardwares(&mut native.hardware_get_sub_hardwares(hardware.handle()))
    );

    let sensors = sensors(&native, hardware).unwrap();
    println!("Sensors: {:#?}", sensors);

    for sensor in &sensors {
        if sensor.sensor_type() == FFISensorType::Temperature {
            println!("{:?} {}", sensor, native.sensor_get_value(sensor.handle()));
        }
    }

    println!();

    native.hardware_update(hardware.handle());

    for sensor in &sensors {
        if sensor.sensor_type() == FFISensorType::Temperature {
            println!("{:?} {}", sensor, native.sensor_get_value(sensor.handle()));
        }
    }
}

#[test]
fn end_to_end_temperature_reading() {
    let mut native = StubNative::new(vec![42.0], vec![1200.0]);
    let computer = open(&mut native).unwrap();
    assert!(native.opened);

    let hardwares = hardwares(&native, &computer).unwrap();
    assert_eq!(hardwares.len(), 1);
    let hardware = &hardwares[0];
    assert_eq!(hardware.name(), "Intel Core i7");

    let sensors = sensors(&native, hardware).unwrap();
    assert_eq!(sensors.len(), 2);
    assert_eq!(sensors[0].sensor_type(), FFISensorType::Temperature);
    assert_eq!(sensors[1].sensor_type(), FFISensorType::Fan);

    native.hardware_update(hardware.handle());

    let temperature = sensors.iter().find(|s| s.sensor_type() == FFISensorType::Temperature).unwrap();
    let value = native.sensor_get_value(temperature.handle());
    assert!(!value.is_nan());
    assert!(value.is_finite());
    assert!((0.0..=120.0).contains(&value));
    assert_eq!(value, 42.0);
}

#[test]
fn readings_follow_the_refreshes() {
    let mut native = StubNative::new(vec![40.0, 42.0, 45.5], vec![1000.0, 1100.0, 1250.0]);
    let computer = open(&mut native).unwrap();
    let hardwares = hardwares(&native, &computer).unwrap();
    let sensors = sensors(&native, &hardwares[0]).unwrap();
    let (temperature, fan) = (&sensors[0], &sensors[1]);

    assert_eq!(native.sensor_get_value(temperature.handle()), 40.0);
    assert_eq!(native.sensor_get_value(fan.handle()), 1000.0);
    native.hardware_update(hardwares[0].handle());
    assert_eq!(native.sensor_get_value(temperature.handle()), 42.0);
    assert_eq!(native.sensor_get_value(fan.handle()), 1100.0);
    native.hardware_update(hardwares[0].handle());
    assert_eq!(native.sensor_get_value(temperature.handle()), 45.5);
    assert_eq!(native.sensor_get_value(fan.handle()), 1250.0);
}

#[test]
fn open_fails_where_no_root_is_handed_out() {
    let mut native = StubNative::new(vec![42.0], vec![1200.0]);
    native.root = 0;
    assert_eq!(open(&mut native).err(), Some(ComputerError::Null));
    assert!(!native.opened);
}
