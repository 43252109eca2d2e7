use bhi160::parameters::sensors::{SensorConfig, SensorId, SensorInfo};
use bhi160::parameters::system::{
    MetaEvent, MetaEventControl, PhysicalSensorStatus, SensorPowerMode, SensorStatus,
};
use bhi160::parameters::{Parameter, ParameterPage};

#[test]
fn sensor_parameter_numbers() {
    assert_eq!(
        Parameter::sensor_info(1),
        Some(Parameter { page: ParameterPage::Sensors, param: 1, size: 16 })
    );
    assert_eq!(
        Parameter::sensor_config(31),
        Some(Parameter { page: ParameterPage::Sensors, param: 95, size: 8 })
    );
    assert_eq!(Parameter::sensor_info(0), None);
    assert_eq!(Parameter::sensor_info(26), None);
    assert_eq!(Parameter::sensor_config(33), None);
    assert_eq!(
        Parameter::meta_event_control(),
        Parameter { page: ParameterPage::System, param: 1, size: 8 }
    );
    assert_eq!(
        Parameter::physical_sensor_status(),
        Parameter { page: ParameterPage::System, param: 31, size: 15 }
    );
}

#[test]
fn page_codes() {
    assert_eq!(ParameterPage::Page0.code(), 0);
    assert_eq!(ParameterPage::Sensors.code(), 3);
    assert_eq!(ParameterPage::Custom14.code(), 14);
}

#[test]
fn sensor_info_decodes() {
    let bytes = [4, 7, 2, 30, 0xD0, 0x07, 16, 0, 200, 0, 10, 0, 0x00, 0x10, 7, 1];
    let info = SensorInfo::from_bytes(&bytes).unwrap();
    assert_eq!(info.sensor_type, SensorId::Gyroscope);
    assert_eq!(info.driver_id, 7);
    assert_eq!(info.driver_version, 2);
    assert_eq!(info.power, 30);
    assert_eq!(info.max_range, 2000);
    assert_eq!(info.resolution, 16);
    assert_eq!(info.max_rate, 200);
    assert_eq!(info.fifo_reserved, 10);
    assert_eq!(info.fifo_max, 4096);
    assert_eq!(info.event_size, 7);
    assert_eq!(info.min_rate, 1);
    let mut bad = bytes;
    bad[0] = 200;
    assert_eq!(SensorInfo::from_bytes(&bad), None);
}

#[test]
fn sensor_config_round_trip() {
    let config = SensorConfig {
        sample_rate: 100,
        max_report_latency: 0x0102,
        change_sensitivity: 0,
        dynamic_range: 0xFFFF,
    };
    let bytes = config.into_bytes();
    assert_eq!(bytes, vec![100, 0, 0x02, 0x01, 0, 0, 0xFF, 0xFF]);
    assert_eq!(SensorConfig::from_bytes(&bytes), config);
}

#[test]
fn meta_event_control_bits() {
    let mut bytes = [0u8; 8];
    bytes[0] = 0b0000_0110; // event 0 enabled, event 1 interrupt
    bytes[7] = 0b1000_0000; // event 31 enabled
    let control = MetaEventControl::from_bytes(&bytes);
    assert_eq!(control.events[0], MetaEvent { int_enable: false, enable: true });
    assert_eq!(control.events[1], MetaEvent { int_enable: true, enable: false });
    assert_eq!(control.events[2], MetaEvent { int_enable: false, enable: false });
    assert_eq!(control.events[31], MetaEvent { int_enable: false, enable: true });
    assert_eq!(control.into_bytes(), bytes.to_vec());
}

#[test]
fn physical_sensor_status_decodes() {
    let bytes = [100, 0, 4, 0, 0b1110_0001, 200, 0, 0xD0, 0x07, 0b0100_0010, 25, 0, 0, 0, 0];
    let status = PhysicalSensorStatus::from_bytes(&bytes);
    assert_eq!(status.accel_sample_rate, 100);
    assert_eq!(status.accel_dynamic_range, 4);
    assert!(status.accel_flags.data_available);
    assert_eq!(status.accel_flags.sensor_power_mode, SensorPowerMode::Active);
    assert_eq!(status.gyro_sample_rate, 200);
    assert_eq!(status.gyro_dynamic_range, 2000);
    assert!(status.gyro_flags.i2c_nack);
    assert_eq!(status.gyro_flags.sensor_power_mode, SensorPowerMode::Suspend);
    assert_eq!(status.mag_sample_rate, 25);
    assert_eq!(status.mag_flags.sensor_power_mode, SensorPowerMode::SensorNotPresent);
}

#[test]
fn sensor_status_byte() {
    let s = SensorStatus::from_byte(0b1011_1010);
    assert!(!s.data_available && s.i2c_nack && !s.device_id_error && s.transient_error && s.data_lost);
    assert_eq!(s.sensor_power_mode, SensorPowerMode::OneShot);
}
