//! Parameters of the system page.
//!
//! Bit fields are packed from the least significant bit of the first byte up,
//! in field order.

use vstd::prelude::*;

use crate::bytes::{bit, bit_value, flag, lemma_pack_bits, read_u16, u16_le};
use crate::parameters::{Parameter, ParameterPage};

verus! {

impl Parameter {
    /// The meta event control parameter (8 bytes, read and write).
    pub fn meta_event_control() -> (r: Parameter)
        ensures
            r == (Parameter { page: ParameterPage::System, param: 1, size: 8 }),
            r.writable(),
    {
        Parameter { page: ParameterPage::System, param: 1, size: 8 }
    }

    /// The physical sensor status parameter (15 bytes, read only).
    pub fn physical_sensor_status() -> (r: Parameter)
        ensures
            r == (Parameter { page: ParameterPage::System, param: 31, size: 15 }),
            r.wf(),
    {
        Parameter { page: ParameterPage::System, param: 31, size: 15 }
    }
}

/// The two control bits of one meta event.
#[derive(Debug, Clone, Copy, PartialEq, Eq, Structural)]
pub struct MetaEvent {
    /// Whether the event raises the host interrupt.
    pub int_enable: bool,
    /// Whether the event is reported in the FIFO.
    pub enable: bool,
}

/// The control bits of the 32 meta events, event `k` in bits `2k`
/// (`int_enable`) and `2k + 1` (`enable`) of the eight parameter bytes.
#[derive(Debug, Clone, Copy, PartialEq, Eq)]
pub struct MetaEventControl {
    pub events: [MetaEvent; 32],
}

/// Whether `c` is what the eight bytes `b` of the parameter hold.
pub open spec fn is_meta_event_control(b: Seq<u8>, c: MetaEventControl) -> bool {
    forall|k: int|
        0 <= k < 32 ==> (#[trigger] c.events[k]).int_enable == flag(b, 2 * k)
            && c.events[k].enable == flag(b, 2 * k + 1)
}

impl MetaEventControl {
    pub fn from_bytes(b: &[u8]) -> (r: MetaEventControl)
        requires
            b@.len() == 8,
        ensures
            is_meta_event_control(b@, r),
    {
        let mut events = [MetaEvent { int_enable: false, enable: false }; 32];
        let mut k: usize = 0;
        while k < 32
            invariant
                k <= 32,
                b@.len() == 8,
                forall|j: int|
                    0 <= j < k ==> (#[trigger] events@[j]).int_enable == flag(b@, 2 * j)
                        && events@[j].enable == flag(b@, 2 * j + 1),
            decreases 32 - k,
        {
            let byte = b[k / 4];
            let shift = (2 * (k % 4)) as u8;
            assert((2 * k as int) / 8 == k as int / 4 && (2 * k as int) % 8 == shift as int);
            assert((2 * k as int + 1) / 8 == k as int / 4 && (2 * k as int + 1) % 8 == shift as int
                + 1);
            events[k] = MetaEvent { int_enable: bit(byte, shift), enable: bit(byte, shift + 1) };
            k = k + 1;
        }
        MetaEventControl { events }
    }

    /// The eight parameter bytes.
    pub fn into_bytes(&self) -> (r: Vec<u8>)
        ensures
            r@.len() == 8,
            is_meta_event_control(r@, *self),
    {
        let mut out: Vec<u8> = Vec::new();
        let mut j: usize = 0;
        while j < 8
            invariant
                j <= 8,
                out@.len() == j,
                forall|k: int|
                    0 <= k < 4 * j ==> (#[trigger] self.events[k]).int_enable == flag(out@, 2 * k)
                        && self.events[k].enable == flag(out@, 2 * k + 1),
            decreases 8 - j,
        {
            let e0 = self.events[4 * j];
            let e1 = self.events[4 * j + 1];
            let e2 = self.events[4 * j + 2];
            let e3 = self.events[4 * j + 3];
            let x0 = bit_value(e0.int_enable);
            let x1 = bit_value(e0.enable);
            let x2 = bit_value(e1.int_enable);
            let x3 = bit_value(e1.enable);
            let x4 = bit_value(e2.int_enable);
            let x5 = bit_value(e2.enable);
            let x6 = bit_value(e3.int_enable);
            let x7 = bit_value(e3.enable);
            let v = x0 | (x1 << 1u8) | (x2 << 2u8) | (x3 << 3u8) | (x4 << 4u8) | (x5 << 5u8) | (x6
                << 6u8) | (x7 << 7u8);
            proof {
                lemma_pack_bits(x0, x1, x2, x3, x4, x5, x6, x7);
            }
            let ghost before = out@;
            out.push(v);
            proof {
                assert forall|k: int|
                    0 <= k < 4 * (j + 1) implies (#[trigger] self.events[k]).int_enable == flag(
                    out@,
                    2 * k,
                ) && self.events[k].enable == flag(out@, 2 * k + 1) by {
                    if k < 4 * j {
                        assert((2 * k) / 8 < j && (2 * k + 1) / 8 < j);
                        assert(out@[(2 * k) / 8] == before[(2 * k) / 8]);
                        assert(out@[(2 * k + 1) / 8] == before[(2 * k + 1) / 8]);
                    } else {
                        assert((2 * k) / 8 == j && (2 * k + 1) / 8 == j);
                        assert((2 * k) % 8 == 2 * (k - 4 * j));
                        assert((2 * k + 1) % 8 == 2 * (k - 4 * j) + 1);
                    }
                }
            }
            j = j + 1;
        }
        out
    }
}

/// The power mode of a physical sensor, codes 0 to 7.
#[derive(Debug, Clone, Copy, PartialEq, Eq, Structural)]
pub enum SensorPowerMode {
    SensorNotPresent,
    PowerDown,
    Suspend,
    SelfTest,
    InterruptMotion,
    OneShot,
    LowPowerActive,
    Active,
}

impl SensorPowerMode {
    pub open spec fn spec_code(self) -> u8 {
        match self {
            SensorPowerMode::SensorNotPresent => 0,
            SensorPowerMode::PowerDown => 1,
            SensorPowerMode::Suspend => 2,
            SensorPowerMode::SelfTest => 3,
            SensorPowerMode::InterruptMotion => 4,
            SensorPowerMode::OneShot => 5,
            SensorPowerMode::LowPowerActive => 6,
            SensorPowerMode::Active => 7,
        }
    }

    pub fn from_code(c: u8) -> (r: SensorPowerMode)
        requires
            c < 8,
        ensures
            r.spec_code() == c,
    {
        match c {
            0 => SensorPowerMode::SensorNotPresent,
            1 => SensorPowerMode::PowerDown,
            2 => SensorPowerMode::Suspend,
            3 => SensorPowerMode::SelfTest,
            4 => SensorPowerMode::InterruptMotion,
            5 => SensorPowerMode::OneShot,
            6 => SensorPowerMode::LowPowerActive,
            _ => SensorPowerMode::Active,
        }
    }
}

/// The status byte of a physical sensor: five flags in bits 0 to 4, the power
/// mode in bits 5 to 7.
#[derive(Debug, Clone, Copy, PartialEq, Eq, Structural)]
pub struct SensorStatus {
    pub data_available: bool,
    pub i2c_nack: bool,
    pub device_id_error: bool,
    pub transient_error: bool,
    pub data_lost: bool,
    pub sensor_power_mode: SensorPowerMode,
}

/// Whether `s` is what the status byte `b` holds.
pub open spec fn is_sensor_status(b: u8, s: SensorStatus) -> bool {
    &&& s.data_available == flag(seq![b], 0)
    &&& s.i2c_nack == flag(seq![b], 1)
    &&& s.device_id_error == flag(seq![b], 2)
    &&& s.transient_error == flag(seq![b], 3)
    &&& s.data_lost == flag(seq![b], 4)
    &&& s.sensor_power_mode.spec_code() == b >> 5u8
}

impl SensorStatus {
    pub fn from_byte(b: u8) -> (r: SensorStatus)
        ensures
            is_sensor_status(b, r),
    {
        assert(b >> 5u8 < 8) by (bit_vector);
        SensorStatus {
            data_available: bit(b, 0),
            i2c_nack: bit(b, 1),
            device_id_error: bit(b, 2),
            transient_error: bit(b, 3),
            data_lost: bit(b, 4),
            sensor_power_mode: SensorPowerMode::from_code(b >> 5u8),
        }
    }
}

/// Sample rate, dynamic range and status of the accelerometer, gyroscope and
/// magnetometer (15 bytes, five per sensor).
#[derive(Debug, Clone, Copy, PartialEq, Eq, Structural)]
pub struct PhysicalSensorStatus {
    pub accel_sample_rate: u16,
    pub accel_dynamic_range: u16,
    pub accel_flags: SensorStatus,
    pub gyro_sample_rate: u16,
    pub gyro_dynamic_range: u16,
    pub gyro_flags: SensorStatus,
    pub mag_sample_rate: u16,
    pub mag_dynamic_range: u16,
    pub mag_flags: SensorStatus,
}

impl PhysicalSensorStatus {
    pub fn from_bytes(b: &[u8]) -> (r: PhysicalSensorStatus)
        requires
            b@.len() == 15,
        ensures
            r.accel_sample_rate == u16_le(b@.subrange(0, 2)),
            r.accel_dynamic_range == u16_le(b@.subrange(2, 4)),
            is_sensor_status(b@[4], r.accel_flags),
            r.gyro_sample_rate == u16_le(b@.subrange(5, 7)),
            r.gyro_dynamic_range == u16_le(b@.subrange(7, 9)),
            is_sensor_status(b@[9], r.gyro_flags),
            r.mag_sample_rate == u16_le(b@.subrange(10, 12)),
            r.mag_dynamic_range == u16_le(b@.subrange(12, 14)),
            is_sensor_status(b@[14], r.mag_flags),
    {
        PhysicalSensorStatus {
            accel_sample_rate: read_u16(&b[0..2]),
            accel_dynamic_range: read_u16(&b[2..4]),
            accel_flags: SensorStatus::from_byte(b[4]),
            gyro_sample_rate: read_u16(&b[5..7]),
            gyro_dynamic_range: read_u16(&b[7..9]),
            gyro_flags: SensorStatus::from_byte(b[9]),
            mag_sample_rate: read_u16(&b[10..12]),
            mag_dynamic_range: read_u16(&b[12..14]),
            mag_flags: SensorStatus::from_byte(b[14]),
        }
    }
}

} // verus!
