//! Sensor identifiers and the per-sensor information and configuration
//! parameters of the sensors page.

use vstd::prelude::*;

use crate::bytes::{read_u16, u16_le};
use crate::parameters::{Parameter, ParameterPage};

verus! {

/// The type of a sensor, as it appears in FIFO records and parameters.
///
/// Most sensors have a wakeup variant whose code is the plain code plus 32.
/// `Terminator` (code 0) marks the end of the FIFO data and is not a sensor.
#[derive(Debug, Clone, Copy, PartialEq, Eq, Structural)]
pub enum SensorId {
    Terminator,
    Accelerometer,
    GeomagneticField,
    Orientation,
    Gyroscope,
    Light,
    Pressure,
    Temperature,
    Proximity,
    Gravity,
    LinearAcceleration,
    RotationVector,
    Humidity,
    AmbientTemperature,
    MagneticFieldUncalibrated,
    GameRotationVector,
    GyroscopeUncalibrated,
    SignificantMotion,
    StepDetector,
    StepCounter,
    GeomagneticRotationVector,
    HeartRate,
    TiltDetector,
    WakeGesture,
    GlanceGesture,
    PickUpGesture,
    ActivityRecognition,
    AccelerometerWakeup,
    GeomagneticFieldWakeup,
    OrientationWakeup,
    GyroscopeWakeup,
    LightWakeup,
    PressureWakeup,
    TemperatureWakeup,
    ProximityWakeup,
    GravityWakeup,
    LinearAccelerationWakeup,
    RotationVectorWakeup,
    HumidityWakeup,
    AmbientTemperatureWakeup,
    MagneticFieldUncalibratedWakeup,
    GameRotationVectorWakeup,
    GyroscopeUncalibratedWakeup,
    SignificantMotionWakeup,
    StepDetectorWakeup,
    StepCounterWakeup,
    GeomagneticRotationVectorWakeup,
    HeartRateWakeup,
    TiltDetectorWakeup,
    WakeGestureWakeup,
    GlanceGestureWakeup,
    PickUpGestureWakeup,
    ActivityRecognitionWakeup,
    Debug,
    TimestampLswWakeup,
    TimestampMswWakeup,
    MetaEventWakeup,
    RawGyro,
    RawMag,
    RawAccel,
    TimestampLsw,
    TimestampMsw,
    MetaEvent,
}

/// The codes that name a sensor id: 0 to 25, 31, 33 to 57, 63, and 245 to 254.
pub open spec fn is_sensor_code(b: u8) -> bool {
    ||| b <= 25
    ||| b == 31
    ||| 33 <= b <= 57
    ||| b == 63
    ||| 245 <= b <= 254
}

impl SensorId {
    /// The one-byte code of this sensor id.
    pub open spec fn spec_code(self) -> u8 {
        match self {
        SensorId::Terminator => 0,
        SensorId::Accelerometer => 1,
        SensorId::GeomagneticField => 2,
        SensorId::Orientation => 3,
        SensorId::Gyroscope => 4,
        SensorId::Light => 5,
        SensorId::Pressure => 6,
        SensorId::Temperature => 7,
        SensorId::Proximity => 8,
        SensorId::Gravity => 9,
        SensorId::LinearAcceleration => 10,
        SensorId::RotationVector => 11,
        SensorId::Humidity => 12,
        SensorId::AmbientTemperature => 13,
        SensorId::MagneticFieldUncalibrated => 14,
        SensorId::GameRotationVector => 15,
        SensorId::GyroscopeUncalibrated => 16,
        SensorId::SignificantMotion => 17,
        SensorId::StepDetector => 18,
        SensorId::StepCounter => 19,
        SensorId::GeomagneticRotationVector => 20,
        SensorId::HeartRate => 21,
        SensorId::TiltDetector => 22,
        SensorId::WakeGesture => 23,
        SensorId::GlanceGesture => 24,
        SensorId::PickUpGesture => 25,
        SensorId::ActivityRecognition => 31,
        SensorId::AccelerometerWakeup => 33,
        SensorId::GeomagneticFieldWakeup => 34,
        SensorId::OrientationWakeup => 35,
        SensorId::GyroscopeWakeup => 36,
        SensorId::LightWakeup => 37,
        SensorId::PressureWakeup => 38,
        SensorId::TemperatureWakeup => 39,
        SensorId::ProximityWakeup => 40,
        SensorId::GravityWakeup => 41,
        SensorId::LinearAccelerationWakeup => 42,
        SensorId::RotationVectorWakeup => 43,
        SensorId::HumidityWakeup => 44,
        SensorId::AmbientTemperatureWakeup => 45,
        SensorId::MagneticFieldUncalibratedWakeup => 46,
        SensorId::GameRotationVectorWakeup => 47,
        SensorId::GyroscopeUncalibratedWakeup => 48,
        SensorId::SignificantMotionWakeup => 49,
        SensorId::StepDetectorWakeup => 50,
        SensorId::StepCounterWakeup => 51,
        SensorId::GeomagneticRotationVectorWakeup => 52,
        SensorId::HeartRateWakeup => 53,
        SensorId::TiltDetectorWakeup => 54,
        SensorId::WakeGestureWakeup => 55,
        SensorId::GlanceGestureWakeup => 56,
        SensorId::PickUpGestureWakeup => 57,
        SensorId::ActivityRecognitionWakeup => 63,
        SensorId::Debug => 245,
        SensorId::TimestampLswWakeup => 246,
        SensorId::TimestampMswWakeup => 247,
        SensorId::MetaEventWakeup => 248,
        SensorId::RawGyro => 249,
        SensorId::RawMag => 250,
        SensorId::RawAccel => 251,
        SensorId::TimestampLsw => 252,
        SensorId::TimestampMsw => 253,
        SensorId::MetaEvent => 254,
        }
    }

    /// The one-byte code of this sensor id.
    #[verifier::when_used_as_spec(spec_code)]
    pub fn code(self) -> (r: u8)
        ensures
            r == self.spec_code(),
    {
        match self {
        SensorId::Terminator => 0,
        SensorId::Accelerometer => 1,
        SensorId::GeomagneticField => 2,
        SensorId::Orientation => 3,
        SensorId::Gyroscope => 4,
        SensorId::Light => 5,
        SensorId::Pressure => 6,
        SensorId::Temperature => 7,
        SensorId::Proximity => 8,
        SensorId::Gravity => 9,
        SensorId::LinearAcceleration => 10,
        SensorId::RotationVector => 11,
        SensorId::Humidity => 12,
        SensorId::AmbientTemperature => 13,
        SensorId::MagneticFieldUncalibrated => 14,
        SensorId::GameRotationVector => 15,
        SensorId::GyroscopeUncalibrated => 16,
        SensorId::SignificantMotion => 17,
        SensorId::StepDetector => 18,
        SensorId::StepCounter => 19,
        SensorId::GeomagneticRotationVector => 20,
        SensorId::HeartRate => 21,
        SensorId::TiltDetector => 22,
        SensorId::WakeGesture => 23,
        SensorId::GlanceGesture => 24,
        SensorId::PickUpGesture => 25,
        SensorId::ActivityRecognition => 31,
        SensorId::AccelerometerWakeup => 33,
        SensorId::GeomagneticFieldWakeup => 34,
        SensorId::OrientationWakeup => 35,
        SensorId::GyroscopeWakeup => 36,
        SensorId::LightWakeup => 37,
        SensorId::PressureWakeup => 38,
        SensorId::TemperatureWakeup => 39,
        SensorId::ProximityWakeup => 40,
        SensorId::GravityWakeup => 41,
        SensorId::LinearAccelerationWakeup => 42,
        SensorId::RotationVectorWakeup => 43,
        SensorId::HumidityWakeup => 44,
        SensorId::AmbientTemperatureWakeup => 45,
        SensorId::MagneticFieldUncalibratedWakeup => 46,
        SensorId::GameRotationVectorWakeup => 47,
        SensorId::GyroscopeUncalibratedWakeup => 48,
        SensorId::SignificantMotionWakeup => 49,
        SensorId::StepDetectorWakeup => 50,
        SensorId::StepCounterWakeup => 51,
        SensorId::GeomagneticRotationVectorWakeup => 52,
        SensorId::HeartRateWakeup => 53,
        SensorId::TiltDetectorWakeup => 54,
        SensorId::WakeGestureWakeup => 55,
        SensorId::GlanceGestureWakeup => 56,
        SensorId::PickUpGestureWakeup => 57,
        SensorId::ActivityRecognitionWakeup => 63,
        SensorId::Debug => 245,
        SensorId::TimestampLswWakeup => 246,
        SensorId::TimestampMswWakeup => 247,
        SensorId::MetaEventWakeup => 248,
        SensorId::RawGyro => 249,
        SensorId::RawMag => 250,
        SensorId::RawAccel => 251,
        SensorId::TimestampLsw => 252,
        SensorId::TimestampMsw => 253,
        SensorId::MetaEvent => 254,
        }
    }

    /// The sensor id with the given code, or `None` for a code that names none.
    pub fn from_code(b: u8) -> (r: Option<SensorId>)
        ensures
            r is Some <==> is_sensor_code(b),
            r matches Some(id) ==> id.spec_code() == b,
    {
        match b {
        0 => Some(SensorId::Terminator),
        1 => Some(SensorId::Accelerometer),
        2 => Some(SensorId::GeomagneticField),
        3 => Some(SensorId::Orientation),
        4 => Some(SensorId::Gyroscope),
        5 => Some(SensorId::Light),
        6 => Some(SensorId::Pressure),
        7 => Some(SensorId::Temperature),
        8 => Some(SensorId::Proximity),
        9 => Some(SensorId::Gravity),
        10 => Some(SensorId::LinearAcceleration),
        11 => Some(SensorId::RotationVector),
        12 => Some(SensorId::Humidity),
        13 => Some(SensorId::AmbientTemperature),
        14 => Some(SensorId::MagneticFieldUncalibrated),
        15 => Some(SensorId::GameRotationVector),
        16 => Some(SensorId::GyroscopeUncalibrated),
        17 => Some(SensorId::SignificantMotion),
        18 => Some(SensorId::StepDetector),
        19 => Some(SensorId::StepCounter),
        20 => Some(SensorId::GeomagneticRotationVector),
        21 => Some(SensorId::HeartRate),
        22 => Some(SensorId::TiltDetector),
        23 => Some(SensorId::WakeGesture),
        24 => Some(SensorId::GlanceGesture),
        25 => Some(SensorId::PickUpGesture),
        31 => Some(SensorId::ActivityRecognition),
        33 => Some(SensorId::AccelerometerWakeup),
        34 => Some(SensorId::GeomagneticFieldWakeup),
        35 => Some(SensorId::OrientationWakeup),
        36 => Some(SensorId::GyroscopeWakeup),
        37 => Some(SensorId::LightWakeup),
        38 => Some(SensorId::PressureWakeup),
        39 => Some(SensorId::TemperatureWakeup),
        40 => Some(SensorId::ProximityWakeup),
        41 => Some(SensorId::GravityWakeup),
        42 => Some(SensorId::LinearAccelerationWakeup),
        43 => Some(SensorId::RotationVectorWakeup),
        44 => Some(SensorId::HumidityWakeup),
        45 => Some(SensorId::AmbientTemperatureWakeup),
        46 => Some(SensorId::MagneticFieldUncalibratedWakeup),
        47 => Some(SensorId::GameRotationVectorWakeup),
        48 => Some(SensorId::GyroscopeUncalibratedWakeup),
        49 => Some(SensorId::SignificantMotionWakeup),
        50 => Some(SensorId::StepDetectorWakeup),
        51 => Some(SensorId::StepCounterWakeup),
        52 => Some(SensorId::GeomagneticRotationVectorWakeup),
        53 => Some(SensorId::HeartRateWakeup),
        54 => Some(SensorId::TiltDetectorWakeup),
        55 => Some(SensorId::WakeGestureWakeup),
        56 => Some(SensorId::GlanceGestureWakeup),
        57 => Some(SensorId::PickUpGestureWakeup),
        63 => Some(SensorId::ActivityRecognitionWakeup),
        245 => Some(SensorId::Debug),
        246 => Some(SensorId::TimestampLswWakeup),
        247 => Some(SensorId::TimestampMswWakeup),
        248 => Some(SensorId::MetaEventWakeup),
        249 => Some(SensorId::RawGyro),
        250 => Some(SensorId::RawMag),
        251 => Some(SensorId::RawAccel),
        252 => Some(SensorId::TimestampLsw),
        253 => Some(SensorId::TimestampMsw),
        254 => Some(SensorId::MetaEvent),
            _ => None,
        }
    }
}

/// Whether a sensor with this code has information and configuration
/// parameters on the sensors page: codes 1 to 25 and 31.
pub open spec fn has_sensor_parameters(code: u8) -> bool {
    (1 <= code <= 25) || code == 31
}

impl Parameter {
    /// The information parameter of the sensor with this code (16 bytes,
    /// read only), numbered as the code.
    pub fn sensor_info(code: u8) -> (r: Option<Parameter>)
        ensures
            r is Some <==> has_sensor_parameters(code),
            r matches Some(p) ==> p == (Parameter {
                page: ParameterPage::Sensors,
                param: code,
                size: 16,
            }),
            r matches Some(p) ==> p.wf(),
    {
        if (1 <= code && code <= 25) || code == 31 {
            Some(Parameter { page: ParameterPage::Sensors, param: code, size: 16 })
        } else {
            None
        }
    }

    /// The configuration parameter of the sensor with this code (8 bytes,
    /// read and write), numbered as the code plus 64.
    pub fn sensor_config(code: u8) -> (r: Option<Parameter>)
        ensures
            r is Some <==> has_sensor_parameters(code),
            r matches Some(p) ==> p == (Parameter {
                page: ParameterPage::Sensors,
                param: (code + 64) as u8,
                size: 8,
            }),
            r matches Some(p) ==> p.writable(),
    {
        if (1 <= code && code <= 25) || code == 31 {
            Some(Parameter { page: ParameterPage::Sensors, param: code + 64, size: 8 })
        } else {
            None
        }
    }
}

/// The sixteen bytes of a sensor information parameter.
#[derive(Debug, Clone, Copy, PartialEq, Eq, Structural)]
pub struct SensorInfo {
    /// The sensor the data belongs to; should match the one requested.
    pub sensor_type: SensorId,
    /// Unique per driver, vendor and part number.
    pub driver_id: u8,
    pub driver_version: u8,
    /// Power consumption in 0.1 mA per LSB.
    pub power: u8,
    /// The maximum range, usually in SI units.
    pub max_range: u16,
    /// Bits of resolution of the underlying sensor.
    pub resolution: u16,
    /// The maximum rate in Hz.
    pub max_rate: u16,
    /// FIFO size reserved for this sensor, in events; 0 for a shared FIFO.
    pub fifo_reserved: u16,
    /// Whole FIFO size, in events.
    pub fifo_max: u16,
    /// Bytes per FIFO event, id included.
    pub event_size: u8,
    /// The minimum rate in Hz.
    pub min_rate: u8,
}

/// Whether `i` is what the sixteen bytes `b` of an information parameter hold.
pub open spec fn is_sensor_info(b: Seq<u8>, i: SensorInfo) -> bool {
    &&& i.sensor_type.spec_code() == b[0]
    &&& i.driver_id == b[1]
    &&& i.driver_version == b[2]
    &&& i.power == b[3]
    &&& i.max_range == u16_le(b.subrange(4, 6))
    &&& i.resolution == u16_le(b.subrange(6, 8))
    &&& i.max_rate == u16_le(b.subrange(8, 10))
    &&& i.fifo_reserved == u16_le(b.subrange(10, 12))
    &&& i.fifo_max == u16_le(b.subrange(12, 14))
    &&& i.event_size == b[14]
    &&& i.min_rate == b[15]
}

impl SensorInfo {
    /// Decodes an information parameter; `None` when its first byte names no
    /// sensor.
    pub fn from_bytes(b: &[u8]) -> (r: Option<SensorInfo>)
        requires
            b@.len() == 16,
        ensures
            r is Some <==> is_sensor_code(b@[0]),
            r matches Some(i) ==> is_sensor_info(b@, i),
    {
        match SensorId::from_code(b[0]) {
            None => None,
            Some(sensor_type) => Some(SensorInfo {
                sensor_type,
                driver_id: b[1],
                driver_version: b[2],
                power: b[3],
                max_range: read_u16(&b[4..6]),
                resolution: read_u16(&b[6..8]),
                max_rate: read_u16(&b[8..10]),
                fifo_reserved: read_u16(&b[10..12]),
                fifo_max: read_u16(&b[12..14]),
                event_size: b[14],
                min_rate: b[15],
            }),
        }
    }
}

/// The eight bytes of a sensor configuration parameter. Writing it requests a
/// change of the sensor's state; reading it back gives the actual state.
#[derive(Debug, Clone, Copy, PartialEq, Eq, Structural)]
pub struct SensorConfig {
    /// The sample rate in Hz; a non-zero value activates the sensor.
    pub sample_rate: u16,
    /// The longest delay, in ms, for batching readings; 0 disables batching.
    pub max_report_latency: u16,
    pub change_sensitivity: u16,
    /// The range of the physical sensor; 0 for its default.
    pub dynamic_range: u16,
}

/// The two bytes of `v`, least significant first.
pub open spec fn u16_bytes(v: u16) -> Seq<u8> {
    seq![(v % 256) as u8, (v / 256) as u8]
}

impl SensorConfig {
    pub open spec fn spec_bytes(self) -> Seq<u8> {
        u16_bytes(self.sample_rate) + u16_bytes(self.max_report_latency) + u16_bytes(
            self.change_sensitivity,
        ) + u16_bytes(self.dynamic_range)
    }

    pub fn from_bytes(b: &[u8]) -> (r: SensorConfig)
        requires
            b@.len() == 8,
        ensures
            r.sample_rate == u16_le(b@.subrange(0, 2)),
            r.max_report_latency == u16_le(b@.subrange(2, 4)),
            r.change_sensitivity == u16_le(b@.subrange(4, 6)),
            r.dynamic_range == u16_le(b@.subrange(6, 8)),
    {
        SensorConfig {
            sample_rate: read_u16(&b[0..2]),
            max_report_latency: read_u16(&b[2..4]),
            change_sensitivity: read_u16(&b[4..6]),
            dynamic_range: read_u16(&b[6..8]),
        }
    }

    /// The eight parameter bytes, each field least significant byte first.
    pub fn into_bytes(self) -> (r: Vec<u8>)
        ensures
            r@ == self.spec_bytes(),
            r@.len() == 8,
    {
        let mut r: Vec<u8> = Vec::new();
        push_u16(&mut r, self.sample_rate);
        push_u16(&mut r, self.max_report_latency);
        push_u16(&mut r, self.change_sensitivity);
        push_u16(&mut r, self.dynamic_range);
        assert(r@ =~= self.spec_bytes());
        r
    }
}

fn push_u16(out: &mut Vec<u8>, v: u16)
    ensures
        final(out)@ == old(out)@ + u16_bytes(v),
{
    out.push((v % 256) as u8);
    out.push((v / 256) as u8);
    assert(final(out)@ =~= old(out)@ + u16_bytes(v));
}

/// Encoding a configuration and decoding the bytes gives the same
/// configuration back.
pub proof fn sensor_config_round_trip(c: SensorConfig)
    ensures
        u16_le(c.spec_bytes().subrange(0, 2)) == c.sample_rate,
        u16_le(c.spec_bytes().subrange(2, 4)) == c.max_report_latency,
        u16_le(c.spec_bytes().subrange(4, 6)) == c.change_sensitivity,
        u16_le(c.spec_bytes().subrange(6, 8)) == c.dynamic_range,
{
    let b = c.spec_bytes();
    assert(b.subrange(0, 2) =~= u16_bytes(c.sample_rate));
    assert(b.subrange(2, 4) =~= u16_bytes(c.max_report_latency));
    assert(b.subrange(4, 6) =~= u16_bytes(c.change_sensitivity));
    assert(b.subrange(6, 8) =~= u16_bytes(c.dynamic_range));
}

} // verus!
