use std::collections::VecDeque;

use bhi160::interface::Interface;
use bhi160::parameters::{Parameter, ParameterPage};
use bhi160::registers::{
    size_field, ChipControl, ChipStatus, HostIfId, HostInterfaceControl, HostStatus, IntStatus,
    ParameterAcknowledge, ParameterPageSelect, ParameterRequest, ReadRegister, Request,
    ResetRequest, RomVersion, UploadAddress, WriteRegister,
};
use bhi160::{Bhi160, ParamError};

#[derive(Debug, Clone, PartialEq, Eq)]
enum Op {
    Read(u8, usize),
    Write(u8, Vec<u8>),
}

/// A bus that answers reads from a queue and records every transaction.
#[derive(Default)]
struct MockBus {
    answers: VecDeque<Option<Vec<u8>>>,
    log: Vec<Op>,
    fail_writes: bool,
}

impl MockBus {
    fn answering(answers: Vec<Option<Vec<u8>>>) -> Self {
        MockBus { answers: answers.into(), ..Default::default() }
    }
}

impl Interface for MockBus {
    type Error = &'static str;

    fn read(&mut self, addr: u8, buf: &mut [u8]) -> Result<(), Self::Error> {
        self.log.push(Op::Read(addr, buf.len()));
        match self.answers.pop_front().expect("unexpected read") {
            Some(data) => {
                buf.copy_from_slice(&data);
                Ok(())
            }
            None => Err("bus failure"),
        }
    }

    fn write(&mut self, addr: u8, buf: &[u8]) -> Result<(), Self::Error> {
        self.log.push(Op::Write(addr, buf.to_vec()));
        if self.fail_writes {
            Err("bus failure")
        } else {
            Ok(())
        }
    }
}

fn sensor_info(id: u8) -> Parameter {
    Parameter { page: ParameterPage::Sensors, param: id, size: 16 }
}

#[test]
fn size_field_encoding() {
    assert_eq!(size_field(16, 16), 0);
    assert_eq!(size_field(8, 8), 0);
    assert_eq!(size_field(15, 16), 15);
    assert_eq!(size_field(8, 16), 8);
    assert_eq!(size_field(1, 8), 1);
    assert_eq!(size_field(7, 8), 7);
}

#[test]
fn register_bytes() {
    let select = ParameterPageSelect { parameter_page: ParameterPage::Sensors, parameter_size: 15 };
    assert_eq!(select.into_byte(), 0xF3);
    let request = ParameterRequest { parameter: 0x41, request: Request::Write };
    assert_eq!(request.into_byte(), 0xC1);
    let control = ChipControl { cpu_run_request: false, host_upload_enable: true };
    assert_eq!(control.into_byte(), 0x02);
    assert_eq!(
        ChipControl::from_bytes(&[0x03]),
        ChipControl { cpu_run_request: true, host_upload_enable: true }
    );
    assert_eq!(UploadAddress(0x1234).into_bytes(), vec![0x12, 0x34]);
    assert_eq!(UploadAddress::from_bytes(&[0x12, 0x34]), UploadAddress(0x1234));
    assert_eq!(
        ParameterRequest::from_bytes(&[0xC1]),
        ParameterRequest { parameter: 0x41, request: Request::Write }
    );
    assert_eq!(ResetRequest.into_bytes(), vec![1]);
    let status = IntStatus::from_bytes(&[0b0100_0001]);
    assert!(status.host_interrupt && status.non_wakeup_immediate && !status.wakeup_watermark);
    let chip = ChipStatus::from_bytes(&[0b0000_1000]);
    assert!(chip.firmware_idle && !chip.eeprom_detected);
    let host = HostStatus::from_bytes(&[0b0000_0101]);
    assert!(host.reset && !host.algorithm_standby);
    assert_eq!(host.host_if_id, Some(HostIfId::AndroidL));
    assert_eq!(HostStatus::from_bytes(&[0b0000_1000]).host_if_id, None);
    let control = HostInterfaceControl {
        algorithm_standby_request: true,
        abort_transfer: false,
        update_transfer_count: true,
        wakeup_fifo_host_interrupt_disable: false,
        ned_coordinates: false,
        ap_suspended: false,
        request_sensor_self_test: false,
        non_wakeup_fifo_host_interrupt_disable: true,
    };
    assert_eq!(control.into_bytes(), vec![0b1000_0101]);
    assert_eq!(HostInterfaceControl::from_bytes(&[0b1000_0101]), control);
    assert_eq!(ParameterAcknowledge::from_byte(0x80), ParameterAcknowledge::Error);
    assert_eq!(ParameterAcknowledge::from_byte(0x81), ParameterAcknowledge::RequestId(0x81));
}

#[test]
fn read_param_runs_handshake() {
    let data: Vec<u8> = (1..=16).collect();
    let bus = MockBus::answering(vec![Some(vec![0x05]), Some(vec![0x01]), Some(data.clone())]);
    let mut bhi = Bhi160::new(bus);
    let got = bhi.read_param(sensor_info(1), 10).unwrap();
    assert_eq!(got, data);
    let bus = bhi.into_interface();
    assert_eq!(
        bus.log,
        vec![
            Op::Write(0x54, vec![0x03]),
            Op::Write(0x64, vec![0x01]),
            Op::Read(0x3A, 1),
            Op::Read(0x3A, 1),
            Op::Read(0x3B, 16),
        ]
    );
}

#[test]
fn read_param_short_width_encodes_size() {
    let p = Parameter { page: ParameterPage::System, param: 31, size: 15 };
    let bus = MockBus::answering(vec![Some(vec![31]), Some(vec![0; 15])]);
    let mut bhi = Bhi160::new(bus);
    assert_eq!(bhi.read_param(p, 1).unwrap().len(), 15);
    let bus = bhi.into_interface();
    assert_eq!(bus.log[0], Op::Write(0x54, vec![0xF1]));
    assert_eq!(bus.log[1], Op::Write(0x64, vec![31]));
}

#[test]
fn read_param_rejected() {
    let bus = MockBus::answering(vec![Some(vec![0x07]), Some(vec![0x80])]);
    let mut bhi = Bhi160::new(bus);
    assert!(matches!(bhi.read_param(sensor_info(1), 10), Err(ParamError::Rejected)));
    assert_eq!(bhi.into_interface().log.len(), 4);
}

#[test]
fn read_param_times_out() {
    let bus = MockBus::answering(vec![Some(vec![0x07]), Some(vec![0x07])]);
    let mut bhi = Bhi160::new(bus);
    assert!(matches!(bhi.read_param(sensor_info(1), 2), Err(ParamError::Timeout)));
    assert_eq!(bhi.into_interface().log.len(), 4);
}

#[test]
fn read_param_zero_budget_times_out_without_polling() {
    let mut bhi = Bhi160::new(MockBus::default());
    assert!(matches!(bhi.read_param(sensor_info(1), 0), Err(ParamError::Timeout)));
    assert_eq!(bhi.into_interface().log.len(), 2);
}

#[test]
fn read_param_bus_failure_stops() {
    let mut bus = MockBus::default();
    bus.fail_writes = true;
    let mut bhi = Bhi160::new(bus);
    assert!(matches!(bhi.read_param(sensor_info(1), 10), Err(ParamError::Bus("bus failure"))));
    assert_eq!(bhi.into_interface().log.len(), 1);
}

#[test]
fn write_param_runs_handshake() {
    let p = Parameter { page: ParameterPage::Sensors, param: 0x41, size: 8 };
    let data = [1, 2, 3, 4, 5, 6, 7, 8];
    let bus = MockBus::answering(vec![Some(vec![0x41]), Some(vec![0xC1])]);
    let mut bhi = Bhi160::new(bus);
    bhi.write_param(p, &data, 5).unwrap();
    let bus = bhi.into_interface();
    assert_eq!(
        bus.log,
        vec![
            Op::Write(0x5C, data.to_vec()),
            Op::Write(0x54, vec![0x03]),
            Op::Write(0x64, vec![0xC1]),
            Op::Read(0x3A, 1),
            Op::Read(0x3A, 1),
            Op::Write(0x64, vec![0x00]),
        ]
    );
}

#[test]
fn write_param_short_width_and_rejection() {
    let p = Parameter { page: ParameterPage::System, param: 1, size: 4 };
    let bus = MockBus::answering(vec![Some(vec![0x80])]);
    let mut bhi = Bhi160::new(bus);
    assert!(matches!(bhi.write_param(p, &[9, 9, 9, 9], 5), Err(ParamError::Rejected)));
    let bus = bhi.into_interface();
    assert_eq!(bus.log[1], Op::Write(0x54, vec![0x41]));
    assert_eq!(bus.log.len(), 4);
}

#[test]
fn upload_streams_body() {
    let body: Vec<u8> = (0..32).collect();
    let bus = MockBus::answering(vec![Some(vec![0x78, 0x56, 0x34, 0x12])]);
    let mut bhi = Bhi160::new(bus);
    assert_eq!(bhi.upload_raw_firmware(&body).unwrap(), 0x12345678);
    let bus = bhi.into_interface();
    assert_eq!(
        bus.log,
        vec![
            Op::Write(0x34, vec![0x02]),
            Op::Write(0x94, vec![0x00, 0x00]),
            Op::Write(0x96, body[0..16].to_vec()),
            Op::Write(0x96, body[16..32].to_vec()),
            Op::Read(0x97, 4),
        ]
    );
}

#[test]
fn read_fifo_takes_what_is_waiting() {
    let bus = MockBus::answering(vec![Some(vec![5, 0]), Some(vec![1, 2, 3, 4, 5])]);
    let mut bhi = Bhi160::new(bus);
    let mut buf = [0xEE; 10];
    assert_eq!(bhi.read_fifo(&mut buf), Ok(5));
    assert_eq!(buf, [1, 2, 3, 4, 5, 0xEE, 0xEE, 0xEE, 0xEE, 0xEE]);
    assert_eq!(bhi.into_interface().log, vec![Op::Read(0x38, 2), Op::Read(0x00, 5)]);
}

#[test]
fn read_fifo_limited_by_buffer() {
    let bus = MockBus::answering(vec![Some(vec![0x00, 0x01]), Some(vec![9, 8, 7, 6])]);
    let mut bhi = Bhi160::new(bus);
    let mut buf = [0; 4];
    assert_eq!(bhi.read_fifo(&mut buf), Ok(4));
    assert_eq!(buf, [9, 8, 7, 6]);
}

#[test]
fn read_fifo_empty() {
    let bus = MockBus::answering(vec![Some(vec![0, 0])]);
    let mut bhi = Bhi160::new(bus);
    let mut buf = [0; 4];
    assert_eq!(bhi.read_fifo(&mut buf), Ok(0));
    assert_eq!(bhi.into_interface().log.len(), 1);
}

#[test]
fn read_reg_reads_its_width() {
    let bus = MockBus::answering(vec![Some(vec![0xAD, 0x2D])]);
    let mut bhi = Bhi160::new(bus);
    let version: RomVersion = bhi.read_reg().unwrap();
    assert_eq!(version, RomVersion(0x2DAD));
    assert_eq!(bhi.into_interface().log, vec![Op::Read(0x70, 2)]);
}

#[test]
fn read_reg_bus_failure() {
    let bus = MockBus::answering(vec![None]);
    let mut bhi = Bhi160::new(bus);
    assert_eq!(bhi.read_reg::<RomVersion>(), Err("bus failure"));
}

#[test]
fn write_reg_writes_bytes() {
    let mut bhi = Bhi160::new(MockBus::default());
    bhi.write_reg(ChipControl { cpu_run_request: true, host_upload_enable: false }).unwrap();
    bhi.write_reg(UploadAddress(0x0102)).unwrap();
    assert_eq!(
        bhi.into_interface().log,
        vec![Op::Write(0x34, vec![0x01]), Op::Write(0x94, vec![0x01, 0x02])]
    );
}

#[test]
fn update_reg_reads_then_writes() {
    let bus = MockBus::answering(vec![Some(vec![0x02])]);
    let mut bhi = Bhi160::new(bus);
    bhi.update_reg(|c: ChipControl| ChipControl { cpu_run_request: true, ..c }).unwrap();
    assert_eq!(bhi.into_interface().log, vec![Op::Read(0x34, 1), Op::Write(0x34, vec![0x03])]);
}
