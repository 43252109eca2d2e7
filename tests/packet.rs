use bhi160::packet::{
    DecodeError, Event, EventReader, MetaEvent, PayloadKind, Quaternion, SensorData, SensorStatus,
    Vector,
};
use bhi160::parameters::sensors::SensorId;

#[test]
fn read_single() {
    let data = [0x01, 0xFE, 0xFF, 0x05, 0x00, 0x69, 0x08, 0x02];
    let (event, _) = Event::read(&data).expect("Cannot read event");
    assert_eq!(event.id(), SensorId::Accelerometer);
    assert_eq!(
        event.data(),
        &SensorData::VectorStatus(Vector([-2, 5, 2153]), SensorStatus::Medium)
    );
}

#[test]
fn read_single_takes_exactly_one_record() {
    let data = [0x01, 0xFE, 0xFF, 0x05, 0x00, 0x69, 0x08, 0x02, 0x00, 0x07];
    let (_, n) = Event::read(&data).unwrap();
    assert_eq!(n, 8);
}

#[test]
fn terminator_ends_reader_without_error() {
    let mut reader = EventReader::new(vec![0x00, 0x01, 0x02]);
    assert_eq!(reader.next(), Ok(None));
}

#[test]
fn terminator_record_is_none() {
    let (event, n) = Event::read(&[0x00]).unwrap();
    assert!(event.is_none());
    assert_eq!(event.data(), &SensorData::Empty);
    assert_eq!(n, 1);
}

#[test]
fn reader_yields_records_then_stops() {
    let mut reader = EventReader::new(vec![
        0x01, 0xFE, 0xFF, 0x05, 0x00, 0x69, 0x08, 0x02, // accelerometer
        0x15, 0x48, // heart rate 72
        0x00,
    ]);
    let first = reader.next().unwrap().unwrap();
    assert_eq!(first.id(), SensorId::Accelerometer);
    let second = reader.next().unwrap().unwrap();
    assert_eq!(second.id(), SensorId::HeartRate);
    assert_eq!(second.data(), &SensorData::Scalar(72));
    assert_eq!(reader.next(), Ok(None));
}

#[test]
fn unknown_sensor_fails() {
    assert_eq!(Event::read(&[26, 0, 0, 0]), Err(DecodeError::UnknownSensor(26)));
    assert_eq!(Event::read(&[0xFF]), Err(DecodeError::UnknownSensor(0xFF)));
}

#[test]
fn unknown_sensor_leaves_reader_in_place() {
    let mut reader = EventReader::new(vec![0x20, 0x00]);
    assert_eq!(reader.next(), Err(DecodeError::UnknownSensor(0x20)));
    assert_eq!(reader.next(), Err(DecodeError::UnknownSensor(0x20)));
}

#[test]
fn empty_input_is_truncated() {
    assert_eq!(Event::read(&[]), Err(DecodeError::Truncated));
}

#[test]
fn short_record_is_truncated() {
    assert_eq!(Event::read(&[0x01, 0xFE, 0xFF, 0x05]), Err(DecodeError::Truncated));
}

#[test]
fn bad_status_fails() {
    let data = [0x01, 0, 0, 0, 0, 0, 0, 0x04];
    assert_eq!(Event::read(&data), Err(DecodeError::InvalidStatus(4)));
}

#[test]
fn bad_meta_event_fails() {
    assert_eq!(Event::read(&[0xFE, 0, 0, 0]), Err(DecodeError::InvalidMetaEvent));
    assert_eq!(Event::read(&[0xFE, 17, 0, 0]), Err(DecodeError::InvalidMetaEvent));
    assert_eq!(Event::read(&[0xFE, 1, 30, 0]), Err(DecodeError::InvalidMetaEvent));
}

#[test]
fn meta_event_fifo_overflow() {
    assert_eq!(MetaEvent::from_bytes([12, 0x05, 0x00]), Some(MetaEvent::FifoOverflow(5)));
}

#[test]
fn meta_event_reserved_codes() {
    for code in 5u8..=10 {
        assert_eq!(MetaEvent::from_bytes([code, 0x12, 0x34]), Some(MetaEvent::Reserved));
        assert_eq!(MetaEvent::from_bytes([code, 0xFF, 0xFF]), Some(MetaEvent::Reserved));
    }
}

#[test]
fn meta_event_out_of_range() {
    assert_eq!(MetaEvent::from_bytes([0, 1, 2]), None);
    assert_eq!(MetaEvent::from_bytes([17, 1, 2]), None);
}

#[test]
fn meta_event_variants() {
    assert_eq!(
        MetaEvent::from_bytes([1, 1, 9]),
        Some(MetaEvent::FlushComplete(SensorId::Accelerometer))
    );
    assert_eq!(
        MetaEvent::from_bytes([3, 4, 7]),
        Some(MetaEvent::PowerModeChanged(SensorId::Gyroscope, 7))
    );
    assert_eq!(MetaEvent::from_bytes([4, 1, 2]), Some(MetaEvent::Error(1, 2)));
    assert_eq!(MetaEvent::from_bytes([14, 0x00, 0x01]), Some(MetaEvent::FifoWatermark(256)));
    assert_eq!(MetaEvent::from_bytes([16, 0x34, 0x12]), Some(MetaEvent::Initialized(0x1234)));
    assert_eq!(
        MetaEvent::from_bytes([15, 0x21, 1]),
        Some(MetaEvent::SelfTestResult(SensorId::AccelerometerWakeup, 1))
    );
}

#[test]
fn meta_event_record() {
    let (event, n) = Event::read(&[0xF8, 12, 0x05, 0x00]).unwrap();
    assert_eq!(event.id(), SensorId::MetaEventWakeup);
    assert_eq!(event.data(), &SensorData::MetaEvent(MetaEvent::FifoOverflow(5)));
    assert_eq!(n, 4);
}

#[test]
fn status_bytes() {
    assert_eq!(SensorStatus::from_byte(0), Some(SensorStatus::Unreliable));
    assert_eq!(SensorStatus::from_byte(1), Some(SensorStatus::Low));
    assert_eq!(SensorStatus::from_byte(2), Some(SensorStatus::Medium));
    assert_eq!(SensorStatus::from_byte(3), Some(SensorStatus::High));
    assert_eq!(SensorStatus::from_byte(4), None);
    assert_eq!(SensorStatus::from_byte(255), None);
}

#[test]
fn rotation_vector_record() {
    let data = [0x0B, 0x01, 0x00, 0xFF, 0xFF, 0x00, 0x80, 0xFF, 0x7F, 0x03, 0x00];
    let (event, n) = Event::read(&data).unwrap();
    assert_eq!(n, 11);
    assert_eq!(event.id(), SensorId::RotationVector);
    assert_eq!(
        event.data(),
        &SensorData::QuaternionAccuracy(Quaternion::new(1, -1, -32768, 32767), 3)
    );
}

#[test]
fn uncalibrated_record() {
    let data = [0x10, 1, 0, 2, 0, 3, 0, 0xFC, 0xFF, 5, 0, 6, 0, 3];
    let (event, n) = Event::read(&data).unwrap();
    assert_eq!(n, 14);
    assert_eq!(event.id(), SensorId::GyroscopeUncalibrated);
    assert_eq!(
        event.data(),
        &SensorData::VectorBiasStatus(Vector([1, 2, 3]), Vector([-4, 5, 6]), SensorStatus::High)
    );
}

#[test]
fn raw_sensor_record() {
    let data = [
        0xFB, 1, 0, 0, 0, 0xFF, 0xFF, 0xFF, 0xFF, 0, 0, 1, 0, 0x78, 0x56, 0x34, 0x12,
    ];
    let (event, n) = Event::read(&data).unwrap();
    assert_eq!(n, 17);
    assert_eq!(event.id(), SensorId::RawAccel);
    assert_eq!(
        event.data(),
        &SensorData::VectorTimestamp(Vector([1, -1, 65536]), 0x12345678)
    );
}

#[test]
fn scalar_records() {
    assert_eq!(Event::read(&[0x06, 0x01, 0x02, 0x03]).unwrap().0.data(), &SensorData::Scalar(0x030201));
    assert_eq!(Event::read(&[0x06, 0xFF, 0xFF, 0xFF]).unwrap().0.data(), &SensorData::Scalar(0xFFFFFF));
    assert_eq!(Event::read(&[0x05, 0xFE, 0xFF]).unwrap().0.data(), &SensorData::Scalar(-2));
    assert_eq!(Event::read(&[0x13, 0xFE, 0xFF]).unwrap().0.data(), &SensorData::Scalar(65534));
    assert_eq!(Event::read(&[0xFC, 0x34, 0x12]).unwrap().0.data(), &SensorData::Scalar(0x1234));
    assert_eq!(Event::read(&[0x07, 0x00, 0x80]).unwrap().0.data(), &SensorData::Scalar(-32768));
}

#[test]
fn gesture_record() {
    let (event, n) = Event::read(&[0x37, 0x01]).unwrap();
    assert_eq!(n, 2);
    assert_eq!(event.id(), SensorId::WakeGestureWakeup);
    assert_eq!(event.data(), &SensorData::Event(1));
}

#[test]
fn debug_record() {
    let mut data = vec![0xF5];
    data.extend(1u8..=13);
    let (event, n) = Event::read(&data).unwrap();
    assert_eq!(n, 14);
    assert_eq!(event.data(), &SensorData::Debug([1, 2, 3, 4, 5, 6, 7, 8, 9, 10, 11, 12, 13]));
}

#[test]
fn payload_lengths() {
    assert_eq!(PayloadKind::of(SensorId::RotationVector).len(), 10);
    assert_eq!(PayloadKind::of(SensorId::Accelerometer).len(), 7);
    assert_eq!(PayloadKind::of(SensorId::Pressure).len(), 3);
    assert_eq!(PayloadKind::of(SensorId::MetaEvent).len(), 3);
    assert_eq!(PayloadKind::of(SensorId::Terminator).len(), 0);
}

#[test]
fn sensor_codes() {
    assert_eq!(SensorId::from_code(1), Some(SensorId::Accelerometer));
    assert_eq!(SensorId::from_code(33), Some(SensorId::AccelerometerWakeup));
    assert_eq!(SensorId::from_code(254), Some(SensorId::MetaEvent));
    assert_eq!(SensorId::from_code(26), None);
    assert_eq!(SensorId::from_code(255), None);
    assert_eq!(SensorId::GyroscopeUncalibratedWakeup.code(), 48);
}

#[test]
fn vector_arithmetic() {
    let a = Vector([1i32, 2, 3]);
    let b = Vector([4i32, 5, 6]);
    assert_eq!(a.clone().elem_add(b.clone()), Vector([5, 7, 9]));
    assert_eq!(b.clone().elem_sub(a.clone()), Vector([3, 3, 3]));
    assert_eq!(a.clone().elem_mul(b.clone()), Vector([4, 10, 18]));
    assert_eq!(b.clone().elem_div(Vector([2, 2, 4])), Vector([2, 2, 1]));
    assert_eq!(a.clone().scale(3), Vector([3, 6, 9]));
    let wide: Vector<i64> = a.clone().change_elem();
    assert_eq!(wide, Vector([1i64, 2, 3]));
    assert_eq!(Vector::<i64>::from(Vector([7i16, 8, 9])), Vector([7i64, 8, 9]));
}

#[test]
fn vector_accessors() {
    let mut v = Vector([1, 2, 3]);
    assert_eq!((*v.x(), *v.y(), *v.z()), (1, 2, 3));
    v.set_x(10);
    v.set_y(20);
    v.set_z(30);
    assert_eq!(v, Vector([10, 20, 30]));
}

#[test]
fn quaternion_accessors() {
    let mut q = Quaternion::new(1, 2, 3, 4);
    assert_eq!((*q.x(), *q.y(), *q.z(), *q.w()), (1, 2, 3, 4));
    q.set_x(5);
    q.set_y(6);
    q.set_z(7);
    q.set_w(8);
    assert_eq!(q, Quaternion::new(5, 6, 7, 8));
    assert_eq!(q.clone().scale(2), Quaternion::new(10, 12, 14, 16));
    let wide: Quaternion<i64> = Quaternion::new(1i16, -2, 3, -4).change_elem();
    assert_eq!(wide, Quaternion::new(1i64, -2, 3, -4));
}
