//! Decoding of the FIFO telemetry stream into typed sensor events.
//!
//! The stream is a run of records with no length prefix: each record is a
//! sensor id byte followed by a payload whose length and shape the id alone
//! decides.

use std::ops::{Add, Div, Mul, Sub};

use vstd::prelude::*;
use vstd::std_specs::convert::{FromSpec, IntoSpec};
use vstd::std_specs::ops::{AddSpec, DivSpec, MulSpec, SubSpec};

use crate::bytes::{
    read_i16, read_i32, read_u16, read_u24, read_u32, signed16, signed32, u16_le, u24_le, u32_le,
};
use crate::parameters::sensors::{is_sensor_code, SensorId};

verus! {

/// A three-component vector.
#[derive(Debug, Clone, PartialEq, Eq)]
pub struct Vector<T>(pub [T; 3]);

impl<T: Copy> Vector<T> {
    /// Component-wise sum.
    pub fn elem_add<Rhs: Copy>(self, rhs: Vector<Rhs>) -> (r: Vector<<T as Add<Rhs>>::Output>) where
        T: Add<Rhs>,
        requires
            forall|i: int| 0 <= i < 3 ==> #[trigger] self.0[i].add_req(rhs.0[i]),
        ensures
            T::obeys_add_spec() ==> forall|i: int|
                0 <= i < 3 ==> #[trigger] r.0[i] == self.0[i].add_spec(rhs.0[i]),
    {
        let a = self.0;
        let b = rhs.0;
        Vector([a[0] + b[0], a[1] + b[1], a[2] + b[2]])
    }

    /// Component-wise difference.
    pub fn elem_sub<Rhs: Copy>(self, rhs: Vector<Rhs>) -> (r: Vector<<T as Sub<Rhs>>::Output>) where
        T: Sub<Rhs>,
        requires
            forall|i: int| 0 <= i < 3 ==> #[trigger] self.0[i].sub_req(rhs.0[i]),
        ensures
            T::obeys_sub_spec() ==> forall|i: int|
                0 <= i < 3 ==> #[trigger] r.0[i] == self.0[i].sub_spec(rhs.0[i]),
    {
        let a = self.0;
        let b = rhs.0;
        Vector([a[0] - b[0], a[1] - b[1], a[2] - b[2]])
    }

    /// Component-wise product.
    pub fn elem_mul<Rhs: Copy>(self, rhs: Vector<Rhs>) -> (r: Vector<<T as Mul<Rhs>>::Output>) where
        T: Mul<Rhs>,
        requires
            forall|i: int| 0 <= i < 3 ==> #[trigger] self.0[i].mul_req(rhs.0[i]),
        ensures
            T::obeys_mul_spec() ==> forall|i: int|
                0 <= i < 3 ==> #[trigger] r.0[i] == self.0[i].mul_spec(rhs.0[i]),
    {
        let a = self.0;
        let b = rhs.0;
        Vector([a[0] * b[0], a[1] * b[1], a[2] * b[2]])
    }

    /// Component-wise quotient.
    pub fn elem_div<Rhs: Copy>(self, rhs: Vector<Rhs>) -> (r: Vector<<T as Div<Rhs>>::Output>) where
        T: Div<Rhs>,
        requires
            forall|i: int| 0 <= i < 3 ==> #[trigger] self.0[i].div_req(rhs.0[i]),
        ensures
            T::obeys_div_spec() ==> forall|i: int|
                0 <= i < 3 ==> #[trigger] r.0[i] == self.0[i].div_spec(rhs.0[i]),
    {
        let a = self.0;
        let b = rhs.0;
        Vector([a[0] / b[0], a[1] / b[1], a[2] / b[2]])
    }

    /// Every component multiplied by `rhs`.
    pub fn scale<Rhs: Copy>(self, rhs: Rhs) -> (r: Vector<<T as Mul<Rhs>>::Output>) where
        T: Mul<Rhs>,
        requires
            forall|i: int| 0 <= i < 3 ==> #[trigger] self.0[i].mul_req(rhs),
        ensures
            T::obeys_mul_spec() ==> forall|i: int|
                0 <= i < 3 ==> #[trigger] r.0[i] == self.0[i].mul_spec(rhs),
    {
        let a = self.0;
        Vector([a[0] * rhs, a[1] * rhs, a[2] * rhs])
    }

    /// A vector of another element type, converted component by component.
    pub fn from<Other: Copy>(other: Vector<Other>) -> (r: Vector<T>) where
        Other: Into<T>,
        ensures
            Other::obeys_into_spec() ==> forall|i: int|
                0 <= i < 3 ==> #[trigger] r.0[i] == other.0[i].into_spec(),
    {
        let a = other.0;
        Vector([a[0].into(), a[1].into(), a[2].into()])
    }

    /// This vector with each component converted to `Output`.
    pub fn change_elem<Output>(self) -> (r: Vector<Output>) where
        Output: From<T>,
        ensures
            Output::obeys_from_spec() ==> forall|i: int|
                0 <= i < 3 ==> #[trigger] r.0[i] == Output::from_spec(self.0[i]),
    {
        let a = self.0;
        Vector([Output::from(a[0]), Output::from(a[1]), Output::from(a[2])])
    }
}

impl<T> Vector<T> {
    pub fn x(&self) -> (r: &T)
        ensures
            *r == self.0[0],
    {
        &self.0[0]
    }

    pub fn y(&self) -> (r: &T)
        ensures
            *r == self.0[1],
    {
        &self.0[1]
    }

    pub fn z(&self) -> (r: &T)
        ensures
            *r == self.0[2],
    {
        &self.0[2]
    }

    pub fn set_x(&mut self, x: T)
        ensures
            final(self).0@ == old(self).0@.update(0, x),
    {
        self.0[0] = x;
    }

    pub fn set_y(&mut self, y: T)
        ensures
            final(self).0@ == old(self).0@.update(1, y),
    {
        self.0[1] = y;
    }

    pub fn set_z(&mut self, z: T)
        ensures
            final(self).0@ == old(self).0@.update(2, z),
    {
        self.0[2] = z;
    }
}

/// A quaternion: a vector part `(x, y, z)` and a scalar part `w`.
#[derive(Debug, Clone, PartialEq, Eq)]
pub struct Quaternion<T> {
    v: Vector<T>,
    s: T,
}

impl<T> View for Quaternion<T> {
    type V = Seq<T>;

    /// The components in the order `x, y, z, w`.
    closed spec fn view(&self) -> Seq<T> {
        seq![self.v.0[0], self.v.0[1], self.v.0[2], self.s]
    }
}

impl<T> Quaternion<T> {
    pub fn new(x: T, y: T, z: T, w: T) -> (r: Self)
        ensures
            r@ == seq![x, y, z, w],
    {
        Quaternion { v: Vector([x, y, z]), s: w }
    }

    pub fn x(&self) -> (r: &T)
        ensures
            *r == self@[0],
    {
        self.v.x()
    }

    pub fn y(&self) -> (r: &T)
        ensures
            *r == self@[1],
    {
        self.v.y()
    }

    pub fn z(&self) -> (r: &T)
        ensures
            *r == self@[2],
    {
        self.v.z()
    }

    pub fn w(&self) -> (r: &T)
        ensures
            *r == self@[3],
    {
        &self.s
    }

    pub fn set_x(&mut self, x: T)
        ensures
            final(self)@ == old(self)@.update(0, x),
    {
        self.v.set_x(x);
        assert(self@ =~= old(self)@.update(0, x));
    }

    pub fn set_y(&mut self, y: T)
        ensures
            final(self)@ == old(self)@.update(1, y),
    {
        self.v.set_y(y);
        assert(self@ =~= old(self)@.update(1, y));
    }

    pub fn set_z(&mut self, z: T)
        ensures
            final(self)@ == old(self)@.update(2, z),
    {
        self.v.set_z(z);
        assert(self@ =~= old(self)@.update(2, z));
    }

    pub fn set_w(&mut self, w: T)
        ensures
            final(self)@ == old(self)@.update(3, w),
    {
        self.s = w;
        assert(self@ =~= old(self)@.update(3, w));
    }
}

impl<T: Copy> Quaternion<T> {
    /// Every component multiplied by `rhs`.
    pub fn scale<Rhs: Copy>(self, rhs: Rhs) -> (r: Quaternion<<T as Mul<Rhs>>::Output>) where
        T: Mul<Rhs>,
        requires
            forall|i: int| 0 <= i < 4 ==> #[trigger] self@[i].mul_req(rhs),
        ensures
            r@.len() == 4,
            T::obeys_mul_spec() ==> forall|i: int|
                0 <= i < 4 ==> #[trigger] r@[i] == self@[i].mul_spec(rhs),
    {
        assert(self.v.0[0] == self@[0] && self.v.0[1] == self@[1] && self.v.0[2] == self@[2]);
        Quaternion { v: self.v.scale(rhs), s: self.s * rhs }
    }

    /// This quaternion with each component converted to `Output`.
    pub fn change_elem<Output>(self) -> (r: Quaternion<Output>) where
        Output: From<T>,
        ensures
            r@.len() == 4,
            Output::obeys_from_spec() ==> forall|i: int|
                0 <= i < 4 ==> #[trigger] r@[i] == Output::from_spec(self@[i]),
    {
        Quaternion { v: self.v.change_elem(), s: Output::from(self.s) }
    }
}

/// How far a sensor trusts its own reading.
#[derive(Debug, Clone, Copy, PartialEq, Eq, Structural, PartialOrd, Ord)]
pub enum SensorStatus {
    Unreliable,
    Low,
    Medium,
    High,
}

/// The status that a status byte stands for: 0 to 3, in rising order of trust.
pub open spec fn status_of(b: u8) -> Option<SensorStatus> {
    match b {
        0 => Some(SensorStatus::Unreliable),
        1 => Some(SensorStatus::Low),
        2 => Some(SensorStatus::Medium),
        3 => Some(SensorStatus::High),
        _ => None,
    }
}

impl SensorStatus {
    /// Decodes a status byte; values of 4 and above stand for no status.
    pub fn from_byte(b: u8) -> (r: Option<SensorStatus>)
        ensures
            r == status_of(b),
    {
        match b {
            0 => Some(SensorStatus::Unreliable),
            1 => Some(SensorStatus::Low),
            2 => Some(SensorStatus::Medium),
            3 => Some(SensorStatus::High),
            _ => None,
        }
    }
}

/// A device-level condition reported in the FIFO in place of a sensor sample.
#[derive(Debug, Clone, PartialEq, Eq)]
pub enum MetaEvent {
    /// Code 1: the FIFO of this sensor was flushed.
    FlushComplete(SensorId),
    /// Code 2.
    SampleRateChanged(SensorId),
    /// Code 3: sensor and its new power mode.
    PowerModeChanged(SensorId, u8),
    /// Code 4: error register and debug state.
    Error(u8, u8),
    /// Codes 5 to 10.
    Reserved,
    /// Code 11: sensor and its status bits.
    SensorError(SensorId, u8),
    /// Code 12: number of lost samples.
    FifoOverflow(u16),
    /// Code 13.
    DynamicRangeChanged(SensorId),
    /// Code 14: bytes remaining.
    FifoWatermark(u16),
    /// Code 15: sensor and test result.
    SelfTestResult(SensorId, u8),
    /// Code 16: RAM version.
    Initialized(u16),
}

/// Whether the three bytes `p` of a meta event record can be decoded: a code
/// from 1 to 16, and a known sensor id in the second byte wherever the code
/// names a sensor.
pub open spec fn meta_event_valid(p: Seq<u8>) -> bool {
    &&& 1 <= p[0] <= 16
    &&& (p[0] == 1 || p[0] == 2 || p[0] == 3 || p[0] == 11 || p[0] == 13 || p[0] == 15)
        ==> is_sensor_code(p[1])
}

/// Whether `m` is what the three bytes `p` of a meta event record stand for.
pub open spec fn is_meta_event(p: Seq<u8>, m: MetaEvent) -> bool {
    match m {
        MetaEvent::FlushComplete(id) => p[0] == 1 && id.spec_code() == p[1],
        MetaEvent::SampleRateChanged(id) => p[0] == 2 && id.spec_code() == p[1],
        MetaEvent::PowerModeChanged(id, mode) => p[0] == 3 && id.spec_code() == p[1] && mode
            == p[2],
        MetaEvent::Error(reg, state) => p[0] == 4 && reg == p[1] && state == p[2],
        MetaEvent::Reserved => 5 <= p[0] <= 10,
        MetaEvent::SensorError(id, bits) => p[0] == 11 && id.spec_code() == p[1] && bits == p[2],
        MetaEvent::FifoOverflow(n) => p[0] == 12 && n == u16_le(p.subrange(1, 3)),
        MetaEvent::DynamicRangeChanged(id) => p[0] == 13 && id.spec_code() == p[1],
        MetaEvent::FifoWatermark(n) => p[0] == 14 && n == u16_le(p.subrange(1, 3)),
        MetaEvent::SelfTestResult(id, res) => p[0] == 15 && id.spec_code() == p[1] && res == p[2],
        MetaEvent::Initialized(v) => p[0] == 16 && v == u16_le(p.subrange(1, 3)),
    }
}

impl MetaEvent {
    /// Decodes the three bytes of a meta event record: its code, then two bytes
    /// whose meaning the code decides.
    pub fn from_bytes(bytes: [u8; 3]) -> (r: Option<MetaEvent>)
        ensures
            r is Some <==> meta_event_valid(bytes@),
            r matches Some(m) ==> is_meta_event(bytes@, m),
    {
        let code = bytes[0];
        let a = bytes[1];
        let b = bytes[2];
        let ghost p = bytes@;
        let word = read_u16(&[a, b]);
        if code == 4 {
            Some(MetaEvent::Error(a, b))
        } else if 5 <= code && code <= 10 {
            Some(MetaEvent::Reserved)
        } else if code == 12 {
            assert(p.subrange(1, 3) =~= seq![a, b]);
            Some(MetaEvent::FifoOverflow(word))
        } else if code == 14 {
            assert(p.subrange(1, 3) =~= seq![a, b]);
            Some(MetaEvent::FifoWatermark(word))
        } else if code == 16 {
            assert(p.subrange(1, 3) =~= seq![a, b]);
            Some(MetaEvent::Initialized(word))
        } else if code == 0 || code > 16 {
            None
        } else {
            match SensorId::from_code(a) {
                None => None,
                Some(id) => {
                    if code == 1 {
                        Some(MetaEvent::FlushComplete(id))
                    } else if code == 2 {
                        Some(MetaEvent::SampleRateChanged(id))
                    } else if code == 3 {
                        Some(MetaEvent::PowerModeChanged(id, b))
                    } else if code == 11 {
                        Some(MetaEvent::SensorError(id, b))
                    } else if code == 13 {
                        Some(MetaEvent::DynamicRangeChanged(id))
                    } else {
                        Some(MetaEvent::SelfTestResult(id, b))
                    }
                },
            }
        }
    }
}

/// The shape of a record's payload, as decided by its sensor id.
#[derive(Debug, Clone, Copy, PartialEq, Eq, Structural)]
pub enum PayloadKind {
    /// No payload: the id ends the stream.
    Terminator,
    /// Four signed 16-bit components and a signed 16-bit accuracy.
    QuaternionAccuracy,
    /// Three signed 16-bit components and a status byte.
    VectorStatus,
    /// One signed 16-bit value.
    SignedScalar16,
    /// One unsigned 16-bit value.
    UnsignedScalar16,
    /// One unsigned 24-bit value.
    UnsignedScalar24,
    /// One unsigned byte.
    UnsignedScalar8,
    /// One event code byte.
    EventCode,
    /// Three signed 16-bit components, three of bias, and a status byte.
    VectorBiasStatus,
    /// Thirteen opaque bytes.
    DebugBytes,
    /// Three signed 32-bit components and an unsigned 32-bit timestamp.
    VectorTimestamp,
    /// A three-byte meta event.
    Meta,
}

/// The payload shape of the records whose id byte is `b`; `None` where `b`
/// names no sensor id.
pub open spec fn kind_of_code(b: u8) -> Option<PayloadKind> {
    match b {
        0 => Some(PayloadKind::Terminator),
        11 | 15 | 20 | 43 | 47 | 52 => Some(PayloadKind::QuaternionAccuracy),
        1 | 2 | 3 | 4 | 9 | 10 | 33 | 34 | 35 | 36 | 41 | 42 => Some(PayloadKind::VectorStatus),
        5 | 7 | 8 | 12 | 13 | 37 | 39 | 40 | 44 | 45 => Some(PayloadKind::SignedScalar16),
        19 | 31 | 51 | 63 | 246 | 247 | 252 | 253 => Some(PayloadKind::UnsignedScalar16),
        6 | 38 => Some(PayloadKind::UnsignedScalar24),
        21 | 53 => Some(PayloadKind::UnsignedScalar8),
        17 | 18 | 22 | 23 | 24 | 25 | 49 | 50 | 54 | 55 | 56 | 57 => Some(PayloadKind::EventCode),
        14 | 16 | 46 | 48 => Some(PayloadKind::VectorBiasStatus),
        245 => Some(PayloadKind::DebugBytes),
        249 | 250 | 251 => Some(PayloadKind::VectorTimestamp),
        248 | 254 => Some(PayloadKind::Meta),
        _ => None,
    }
}

/// The number of payload bytes that follow the id byte.
pub open spec fn payload_len(k: PayloadKind) -> nat {
    match k {
        PayloadKind::Terminator => 0,
        PayloadKind::QuaternionAccuracy => 10,
        PayloadKind::VectorStatus => 7,
        PayloadKind::SignedScalar16 => 2,
        PayloadKind::UnsignedScalar16 => 2,
        PayloadKind::UnsignedScalar24 => 3,
        PayloadKind::UnsignedScalar8 => 1,
        PayloadKind::EventCode => 1,
        PayloadKind::VectorBiasStatus => 13,
        PayloadKind::DebugBytes => 13,
        PayloadKind::VectorTimestamp => 16,
        PayloadKind::Meta => 3,
    }
}

impl PayloadKind {
    /// The payload shape of the records of sensor `id`.
    pub fn of(id: SensorId) -> (r: PayloadKind)
        ensures
            kind_of_code(id.spec_code()) == Some(r),
    {
        match id {
            SensorId::Terminator => PayloadKind::Terminator,
            SensorId::RotationVector | SensorId::RotationVectorWakeup
            | SensorId::GameRotationVector | SensorId::GameRotationVectorWakeup
            | SensorId::GeomagneticRotationVector
            | SensorId::GeomagneticRotationVectorWakeup => PayloadKind::QuaternionAccuracy,
            SensorId::Accelerometer | SensorId::AccelerometerWakeup | SensorId::GeomagneticField
            | SensorId::GeomagneticFieldWakeup | SensorId::Orientation
            | SensorId::OrientationWakeup | SensorId::Gyroscope | SensorId::GyroscopeWakeup
            | SensorId::Gravity | SensorId::GravityWakeup | SensorId::LinearAcceleration
            | SensorId::LinearAccelerationWakeup => PayloadKind::VectorStatus,
            SensorId::Light | SensorId::LightWakeup | SensorId::Proximity
            | SensorId::ProximityWakeup | SensorId::Humidity | SensorId::HumidityWakeup
            | SensorId::Temperature | SensorId::TemperatureWakeup | SensorId::AmbientTemperature
            | SensorId::AmbientTemperatureWakeup => PayloadKind::SignedScalar16,
            SensorId::StepCounter | SensorId::StepCounterWakeup | SensorId::ActivityRecognition
            | SensorId::ActivityRecognitionWakeup | SensorId::TimestampLsw
            | SensorId::TimestampLswWakeup | SensorId::TimestampMsw
            | SensorId::TimestampMswWakeup => PayloadKind::UnsignedScalar16,
            SensorId::Pressure | SensorId::PressureWakeup => PayloadKind::UnsignedScalar24,
            SensorId::HeartRate | SensorId::HeartRateWakeup => PayloadKind::UnsignedScalar8,
            SensorId::SignificantMotion | SensorId::SignificantMotionWakeup
            | SensorId::StepDetector | SensorId::StepDetectorWakeup | SensorId::TiltDetector
            | SensorId::TiltDetectorWakeup | SensorId::WakeGesture | SensorId::WakeGestureWakeup
            | SensorId::GlanceGesture | SensorId::GlanceGestureWakeup | SensorId::PickUpGesture
            | SensorId::PickUpGestureWakeup => PayloadKind::EventCode,
            SensorId::MagneticFieldUncalibrated | SensorId::MagneticFieldUncalibratedWakeup
            | SensorId::GyroscopeUncalibrated
            | SensorId::GyroscopeUncalibratedWakeup => PayloadKind::VectorBiasStatus,
            SensorId::Debug => PayloadKind::DebugBytes,
            SensorId::RawGyro | SensorId::RawMag | SensorId::RawAccel => PayloadKind::VectorTimestamp,
            SensorId::MetaEvent | SensorId::MetaEventWakeup => PayloadKind::Meta,
        }
    }

    /// The number of payload bytes that follow the id byte.
    pub fn len(self) -> (r: usize)
        ensures
            r == payload_len(self),
    {
        match self {
            PayloadKind::Terminator => 0,
            PayloadKind::QuaternionAccuracy => 10,
            PayloadKind::VectorStatus => 7,
            PayloadKind::SignedScalar16 => 2,
            PayloadKind::UnsignedScalar16 => 2,
            PayloadKind::UnsignedScalar24 => 3,
            PayloadKind::UnsignedScalar8 => 1,
            PayloadKind::EventCode => 1,
            PayloadKind::VectorBiasStatus => 13,
            PayloadKind::DebugBytes => 13,
            PayloadKind::VectorTimestamp => 16,
            PayloadKind::Meta => 3,
        }
    }
}

/// The payload of one record.
#[derive(Debug, Clone, PartialEq, Eq)]
pub enum SensorData {
    /// No payload (the terminator record).
    Empty,
    /// An event code of a binary or gesture sensor.
    Event(u8),
    /// A single value, widened to 32 bits.
    Scalar(i32),
    VectorStatus(Vector<i16>, SensorStatus),
    VectorBiasStatus(Vector<i16>, Vector<i16>, SensorStatus),
    QuaternionAccuracy(Quaternion<i16>, i16),
    VectorTimestamp(Vector<i32>, u32),
    Debug([u8; 13]),
    MetaEvent(MetaEvent),
}

/// Why a record could not be decoded.
#[derive(Debug, Clone, Copy, PartialEq, Eq, Structural)]
pub enum DecodeError {
    /// The bytes ran out before the record was complete.
    Truncated,
    /// The id byte names no sensor.
    UnknownSensor(u8),
    /// A status byte above 3.
    InvalidStatus(u8),
    /// A meta event code outside 1 to 16, or a meta event naming an unknown sensor.
    InvalidMetaEvent,
}

/// The signed 16-bit little-endian value at offset `at` of `p`.
pub open spec fn i16_at(p: Seq<u8>, at: int) -> int {
    signed16(u16_le(p.subrange(at, at + 2)))
}

/// The signed 32-bit little-endian value at offset `at` of `p`.
pub open spec fn i32_at(p: Seq<u8>, at: int) -> int {
    signed32(u32_le(p.subrange(at, at + 4)))
}

/// Whether `v` holds the three signed 16-bit values at offset `at` of `p`.
pub open spec fn vector16_at(v: Vector<i16>, p: Seq<u8>, at: int) -> bool {
    &&& v.0[0] == i16_at(p, at)
    &&& v.0[1] == i16_at(p, at + 2)
    &&& v.0[2] == i16_at(p, at + 4)
}

/// Whether `v` holds the three signed 32-bit values at offset `at` of `p`.
pub open spec fn vector32_at(v: Vector<i32>, p: Seq<u8>, at: int) -> bool {
    &&& v.0[0] == i32_at(p, at)
    &&& v.0[1] == i32_at(p, at + 4)
    &&& v.0[2] == i32_at(p, at + 8)
}

/// The error, if any, in a complete payload `p` of shape `k`: a status byte
/// out of range, or a meta event that cannot be decoded.
pub open spec fn payload_error(k: PayloadKind, p: Seq<u8>) -> Option<DecodeError> {
    match k {
        PayloadKind::VectorStatus => if status_of(p[6]) is None {
            Some(DecodeError::InvalidStatus(p[6]))
        } else {
            None
        },
        PayloadKind::VectorBiasStatus => if status_of(p[12]) is None {
            Some(DecodeError::InvalidStatus(p[12]))
        } else {
            None
        },
        PayloadKind::Meta => if !meta_event_valid(p) {
            Some(DecodeError::InvalidMetaEvent)
        } else {
            None
        },
        _ => None,
    }
}

/// Whether `d` is the value of the complete payload `p` of shape `k`.
pub open spec fn payload_matches(k: PayloadKind, p: Seq<u8>, d: SensorData) -> bool {
    match k {
        PayloadKind::Terminator => d is Empty,
        PayloadKind::QuaternionAccuracy => d matches SensorData::QuaternionAccuracy(q, acc)
            && q@[0] == i16_at(p, 0) && q@[1] == i16_at(p, 2) && q@[2] == i16_at(p, 4)
            && q@[3] == i16_at(p, 6) && acc == i16_at(p, 8),
        PayloadKind::VectorStatus => d matches SensorData::VectorStatus(v, s)
            && vector16_at(v, p, 0) && status_of(p[6]) == Some(s),
        PayloadKind::SignedScalar16 => d matches SensorData::Scalar(x) && x == i16_at(p, 0),
        PayloadKind::UnsignedScalar16 => d matches SensorData::Scalar(x) && x == u16_le(p),
        PayloadKind::UnsignedScalar24 => d matches SensorData::Scalar(x) && x == u24_le(p),
        PayloadKind::UnsignedScalar8 => d matches SensorData::Scalar(x) && x == p[0],
        PayloadKind::EventCode => d matches SensorData::Event(c) && c == p[0],
        PayloadKind::VectorBiasStatus => d matches SensorData::VectorBiasStatus(v, b, s)
            && vector16_at(v, p, 0) && vector16_at(b, p, 6) && status_of(p[12]) == Some(s),
        PayloadKind::DebugBytes => d matches SensorData::Debug(raw) && raw@ == p,
        PayloadKind::VectorTimestamp => d matches SensorData::VectorTimestamp(v, t)
            && vector32_at(v, p, 0) && t == u32_le(p.subrange(12, 16)),
        PayloadKind::Meta => d matches SensorData::MetaEvent(m) && is_meta_event(p, m),
    }
}

fn read_vector16(p: &[u8], at: usize) -> (v: Vector<i16>)
    requires
        at <= 6,
        at + 6 <= p@.len(),
    ensures
        vector16_at(v, p@, at as int),
{
    let x = read_i16(&p[at..at + 2]);
    let y = read_i16(&p[at + 2..at + 4]);
    let z = read_i16(&p[at + 4..at + 6]);
    Vector([x, y, z])
}

impl SensorData {
    fn read_vector_status(p: &[u8]) -> (r: Result<SensorData, DecodeError>)
        requires
            p@.len() == 7,
        ensures
            match r {
                Ok(d) => payload_error(PayloadKind::VectorStatus, p@) is None
                    && payload_matches(PayloadKind::VectorStatus, p@, d),
                Err(e) => payload_error(PayloadKind::VectorStatus, p@) == Some(e),
            },
    {
        let v = read_vector16(p, 0);
        match SensorStatus::from_byte(p[6]) {
            Some(s) => Ok(SensorData::VectorStatus(v, s)),
            None => Err(DecodeError::InvalidStatus(p[6])),
        }
    }

    fn read_vector_bias_status(p: &[u8]) -> (r: Result<SensorData, DecodeError>)
        requires
            p@.len() == 13,
        ensures
            match r {
                Ok(d) => payload_error(PayloadKind::VectorBiasStatus, p@) is None
                    && payload_matches(PayloadKind::VectorBiasStatus, p@, d),
                Err(e) => payload_error(PayloadKind::VectorBiasStatus, p@) == Some(e),
            },
    {
        let v = read_vector16(p, 0);
        let bias = read_vector16(p, 6);
        match SensorStatus::from_byte(p[12]) {
            Some(s) => Ok(SensorData::VectorBiasStatus(v, bias, s)),
            None => Err(DecodeError::InvalidStatus(p[12])),
        }
    }

    fn read_quaternion_accuracy(p: &[u8]) -> (r: SensorData)
        requires
            p@.len() == 10,
        ensures
            payload_matches(PayloadKind::QuaternionAccuracy, p@, r),
    {
        let x = read_i16(&p[0..2]);
        let y = read_i16(&p[2..4]);
        let z = read_i16(&p[4..6]);
        let w = read_i16(&p[6..8]);
        let accuracy = read_i16(&p[8..10]);
        SensorData::QuaternionAccuracy(Quaternion::new(x, y, z, w), accuracy)
    }

    fn read_vector_timestamp(p: &[u8]) -> (r: SensorData)
        requires
            p@.len() == 16,
        ensures
            payload_matches(PayloadKind::VectorTimestamp, p@, r),
    {
        let x = read_i32(&p[0..4]);
        let y = read_i32(&p[4..8]);
        let z = read_i32(&p[8..12]);
        let t = read_u32(&p[12..16]);
        SensorData::VectorTimestamp(Vector([x, y, z]), t)
    }

    fn read_metaevent(p: &[u8]) -> (r: Result<SensorData, DecodeError>)
        requires
            p@.len() == 3,
        ensures
            match r {
                Ok(d) => payload_error(PayloadKind::Meta, p@) is None
                    && payload_matches(PayloadKind::Meta, p@, d),
                Err(e) => payload_error(PayloadKind::Meta, p@) == Some(e),
            },
    {
        let bytes = [p[0], p[1], p[2]];
        assert(bytes@ =~= p@);
        match MetaEvent::from_bytes(bytes) {
            Some(m) => Ok(SensorData::MetaEvent(m)),
            None => Err(DecodeError::InvalidMetaEvent),
        }
    }

    fn read_debug(p: &[u8]) -> (r: SensorData)
        requires
            p@.len() == 13,
        ensures
            payload_matches(PayloadKind::DebugBytes, p@, r),
    {
        let mut raw = [0u8; 13];
        let mut i: usize = 0;
        while i < 13
            invariant
                i <= 13,
                p@.len() == 13,
                forall|j: int| 0 <= j < i ==> raw@[j] == p@[j],
            decreases 13 - i,
        {
            raw[i] = p[i];
            i = i + 1;
        }
        assert(raw@ =~= p@);
        SensorData::Debug(raw)
    }

    /// Decodes a complete payload `p` of shape `k`.
    pub fn read(k: PayloadKind, p: &[u8]) -> (r: Result<SensorData, DecodeError>)
        requires
            p@.len() == payload_len(k),
        ensures
            match r {
                Ok(d) => payload_error(k, p@) is None && payload_matches(k, p@, d),
                Err(e) => payload_error(k, p@) == Some(e),
            },
    {
        match k {
            PayloadKind::Terminator => Ok(SensorData::Empty),
            PayloadKind::QuaternionAccuracy => Ok(SensorData::read_quaternion_accuracy(p)),
            PayloadKind::VectorStatus => SensorData::read_vector_status(p),
            PayloadKind::SignedScalar16 => {
                let x = read_i16(p);
                assert(p@.subrange(0, 2) =~= p@);
                Ok(SensorData::Scalar(x as i32))
            },
            PayloadKind::UnsignedScalar16 => Ok(SensorData::Scalar(read_u16(p) as i32)),
            PayloadKind::UnsignedScalar24 => Ok(SensorData::Scalar(read_u24(p) as i32)),
            PayloadKind::UnsignedScalar8 => Ok(SensorData::Scalar(p[0] as i32)),
            PayloadKind::EventCode => Ok(SensorData::Event(p[0])),
            PayloadKind::VectorBiasStatus => SensorData::read_vector_bias_status(p),
            PayloadKind::DebugBytes => Ok(SensorData::read_debug(p)),
            PayloadKind::VectorTimestamp => Ok(SensorData::read_vector_timestamp(p)),
            PayloadKind::Meta => SensorData::read_metaevent(p),
        }
    }
}

/// The error, if any, in decoding one record from the start of `b`.
pub open spec fn read_error(b: Seq<u8>) -> Option<DecodeError> {
    if b.len() == 0 {
        Some(DecodeError::Truncated)
    } else {
        match kind_of_code(b[0]) {
            None => Some(DecodeError::UnknownSensor(b[0])),
            Some(k) => if b.len() < 1 + payload_len(k) {
                Some(DecodeError::Truncated)
            } else {
                payload_error(k, b.subrange(1, 1 + payload_len(k) as int))
            },
        }
    }
}

/// The length in bytes of the record at the start of `b`, id byte included.
pub open spec fn record_len(b: Seq<u8>) -> nat {
    match kind_of_code(b[0]) {
        Some(k) => 1 + payload_len(k),
        None => 0,
    }
}

/// Meta event codes 5 to 10 all decode to `Reserved`, whatever the two bytes
/// after the code hold.
pub proof fn reserved_meta_codes(p: Seq<u8>)
    requires
        p.len() == 3,
        5 <= p[0] <= 10,
    ensures
        meta_event_valid(p),
        forall|m: MetaEvent| is_meta_event(p, m) <==> m == MetaEvent::Reserved,
{
}

/// Status bytes 0 to 3 stand for the four statuses in rising order of trust;
/// in a vector record, a status byte of 4 or more makes the decode fail with
/// `InvalidStatus`.
pub proof fn status_byte_range(b: Seq<u8>)
    requires
        b.len() >= 8,
        kind_of_code(b[0]) == Some(PayloadKind::VectorStatus),
    ensures
        status_of(0) == Some(SensorStatus::Unreliable),
        status_of(1) == Some(SensorStatus::Low),
        status_of(2) == Some(SensorStatus::Medium),
        status_of(3) == Some(SensorStatus::High),
        b[7] >= 4 ==> read_error(b) == Some(DecodeError::InvalidStatus(b[7])),
        b[7] < 4 ==> read_error(b) is None,
{
    assert(b.subrange(1, 8)[6] == b[7]);
}

/// The id bytes that name no sensor are exactly those that have no record
/// shape.
pub proof fn kind_of_known_codes(b: u8)
    ensures
        kind_of_code(b) is Some <==> is_sensor_code(b),
{
}

/// A record whose id byte names no sensor fails to decode with
/// `UnknownSensor`, before any of its payload is looked at.
pub proof fn unknown_sensor_fails(b: Seq<u8>)
    requires
        b.len() > 0,
        !is_sensor_code(b[0]),
    ensures
        read_error(b) == Some(DecodeError::UnknownSensor(b[0])),
{
    kind_of_known_codes(b[0]);
}

/// An id byte of 0 is a complete record of one byte with no payload: decoding
/// it never fails, and it stands for the terminator.
pub proof fn terminator_is_one_byte(b: Seq<u8>)
    requires
        b.len() > 0,
        b[0] == 0,
    ensures
        read_error(b) is None,
        record_len(b) == 1,
        forall|ev: Event|
            decodes_to(b, ev) ==> ev.spec_id() == SensorId::Terminator && ev.spec_data() is Empty,
{
    assert forall|ev: Event| decodes_to(b, ev) implies ev.spec_id() == SensorId::Terminator
        && ev.spec_data() is Empty by {
        let id = ev.spec_id();
        assert(id.spec_code() == 0);
    }
}

/// One decoded FIFO record: the sensor it came from and its payload.
#[derive(Debug, Clone, PartialEq, Eq)]
pub struct Event {
    id: SensorId,
    data: SensorData,
}

/// Whether `ev` is the record at the start of `b`.
pub open spec fn decodes_to(b: Seq<u8>, ev: Event) -> bool {
    &&& b.len() > 0
    &&& ev.spec_id().spec_code() == b[0]
    &&& kind_of_code(b[0]) matches Some(k)
    &&& b.len() >= 1 + payload_len(k)
    &&& payload_matches(k, b.subrange(1, 1 + payload_len(k) as int), ev.spec_data())
}

impl Event {
    pub closed spec fn spec_id(&self) -> SensorId {
        self.id
    }

    pub closed spec fn spec_data(&self) -> SensorData {
        self.data
    }

    /// Decodes the record at the start of `b`, and returns it with the number
    /// of bytes it took. Bytes after the record are not looked at.
    pub fn read(b: &[u8]) -> (r: Result<(Event, usize), DecodeError>)
        ensures
            match r {
                Ok((ev, n)) => read_error(b@) is None && decodes_to(b@, ev) && n == record_len(b@),
                Err(e) => read_error(b@) == Some(e),
            },
    {
        if b.len() == 0 {
            return Err(DecodeError::Truncated);
        }
        let id = match SensorId::from_code(b[0]) {
            Some(id) => id,
            None => return Err(DecodeError::UnknownSensor(b[0])),
        };
        let k = PayloadKind::of(id);
        let n = k.len() + 1;
        if b.len() < n {
            return Err(DecodeError::Truncated);
        }
        let data = SensorData::read(k, &b[1..n])?;
        Ok((Event { id, data }, n))
    }

    pub fn id(&self) -> (r: SensorId)
        ensures
            r == self.spec_id(),
    {
        self.id
    }

    pub fn data(&self) -> (r: &SensorData)
        ensures
            *r == self.spec_data(),
    {
        &self.data
    }

    /// Whether this is the terminator record rather than a sensor sample.
    pub fn is_none(&self) -> (r: bool)
        ensures
            r == (self.spec_id() == SensorId::Terminator),
    {
        self.id == SensorId::Terminator
    }
}

/// Reads the records of a FIFO buffer one at a time.
#[derive(Debug, Clone)]
pub struct EventReader {
    bytes: Vec<u8>,
    pos: usize,
}

impl EventReader {
    /// The bytes not read yet.
    pub closed spec fn remaining(&self) -> Seq<u8> {
        self.bytes@.subrange(self.pos as int, self.bytes@.len() as int)
    }

    pub closed spec fn wf(&self) -> bool {
        self.pos <= self.bytes@.len()
    }

    pub fn new(bytes: Vec<u8>) -> (r: Self)
        ensures
            r.wf(),
            r.remaining() == bytes@,
    {
        let r = EventReader { bytes, pos: 0 };
        assert(r.remaining() =~= r.bytes@);
        r
    }

    /// Decodes the next record. A terminator record ends the stream: it is
    /// consumed and `Ok(None)` comes back. On an error nothing is consumed.
    pub fn next(&mut self) -> (r: Result<Option<Event>, DecodeError>)
        requires
            old(self).wf(),
        ensures
            final(self).wf(),
            match r {
                Ok(o) => {
                    &&& read_error(old(self).remaining()) is None
                    &&& final(self).remaining() == old(self).remaining().skip(
                        record_len(old(self).remaining()) as int,
                    )
                    &&& (o is None <==> old(self).remaining()[0] == 0)
                    &&& (o matches Some(ev) ==> decodes_to(old(self).remaining(), ev))
                },
                Err(e) => {
                    &&& read_error(old(self).remaining()) == Some(e)
                    &&& final(self).remaining() == old(self).remaining()
                },
            },
    {
        let rest = &self.bytes.as_slice()[self.pos..self.bytes.len()];
        match Event::read(rest) {
            Err(e) => Err(e),
            Ok((ev, n)) => {
                self.pos = self.pos + n;
                assert(self.remaining() =~= old(self).remaining().skip(n as int));
                if ev.is_none() {
                    Ok(None)
                } else {
                    Ok(Some(ev))
                }
            },
        }
    }
}

} // verus!
