//! The hub's registers: addresses and byte layouts.
//!
//! Bit fields are packed from the least significant bit up, in field order.

use vstd::prelude::*;

use crate::bytes::{bit, bit_value, flag, pack_bits, read_u16, read_u32, u16_le, u32_le};
use crate::parameters::sensors::SensorId;
use crate::parameters::ParameterPage;

verus! {

/// FIFO data, read in bursts.
pub const FIFO_DATA: u8 = 0x00;

/// Data of a parameter read.
pub const PARAMETER_READ_DATA: u8 = 0x3B;

/// Data of a parameter write.
pub const PARAMETER_WRITE_DATA: u8 = 0x5C;

/// Firmware upload data, written in 16-byte bursts.
pub const UPLOAD_DATA: u8 = 0x96;

/// A register: its address and its width in bytes.
pub trait Register: Sized {
    const ADDR: u8;

    const SIZE: usize;
}

/// A register whose value can be read.
pub trait ReadRegister: Register {
    /// The value that the register bytes `b` stand for.
    spec fn spec_from_bytes(b: Seq<u8>) -> Self;

    fn from_bytes(b: &[u8]) -> (r: Self)
        requires
            b@.len() == Self::SIZE,
        ensures
            r == Self::spec_from_bytes(b@),
    ;
}

/// A register that can be written.
pub trait WriteRegister: Register {
    /// The register bytes that stand for this value.
    spec fn spec_bytes(&self) -> Seq<u8>;

    fn into_bytes(&self) -> (r: Vec<u8>)
        ensures
            r@ == self.spec_bytes(),
            r@.len() == Self::SIZE,
    ;
}

/// A pseudo register holding up to 50 bytes read from the FIFO.
#[derive(Debug)]
pub struct BufferOut {
    data: [u8; 0x32],
    len: usize,
}

impl View for BufferOut {
    type V = Seq<u8>;

    /// The bytes held.
    closed spec fn view(&self) -> Seq<u8> {
        self.data@.take(self.len as int)
    }
}

impl BufferOut {
    #[verifier::type_invariant]
    spec fn inv(&self) -> bool {
        self.len <= 0x32
    }

    /// Holds a copy of `src`, which must fit in 50 bytes.
    pub fn from(src: &[u8]) -> (r: BufferOut)
        requires
            src@.len() <= 0x32,
        ensures
            r@ == src@,
    {
        let mut data = [0u8; 0x32];
        let len = src.len();
        let mut i: usize = 0;
        while i < len
            invariant
                i <= len,
                len == src@.len(),
                len <= 0x32,
                forall|j: int| 0 <= j < i ==> data@[j] == src@[j],
            decreases len - i,
        {
            data[i] = src[i];
            i = i + 1;
        }
        let r = BufferOut { data, len };
        assert(r@ =~= src@);
        r
    }

    /// The bytes held.
    pub fn data(&self) -> (r: &[u8])
        ensures
            r@ == self@,
    {
        proof {
            use_type_invariant(self);
        }
        &self.data[0..self.len]
    }
}

/// Flushes the FIFO, whole or for one sensor.
#[derive(Debug, Clone, Copy, PartialEq, Eq, Structural)]
pub enum FifoFlush {
    /// Do not flush.
    Nop,
    FlushAll,
    /// Flush the events of this sensor.
    Sensor(SensorId),
}

impl Register for FifoFlush {
    const ADDR: u8 = 0x32;

    const SIZE: usize = 1;
}

impl WriteRegister for FifoFlush {
    open spec fn spec_bytes(&self) -> Seq<u8> {
        seq![
            match *self {
                FifoFlush::Nop => 0u8,
                FifoFlush::FlushAll => 0xFFu8,
                FifoFlush::Sensor(id) => id.spec_code(),
            },
        ]
    }

    fn into_bytes(&self) -> (r: Vec<u8>) {
        let b = match *self {
            FifoFlush::Nop => 0,
            FifoFlush::FlushAll => 0xFF,
            FifoFlush::Sensor(id) => id.code(),
        };
        vec![b]
    }
}

/// Control of the hub's own processor.
#[derive(Debug, Clone, Copy, PartialEq, Eq, Structural)]
pub struct ChipControl {
    /// `true` starts the processor, `false` halts it.
    pub cpu_run_request: bool,
    /// `true` arms firmware upload; the processor should be halted meanwhile.
    pub host_upload_enable: bool,
}

impl ChipControl {
    pub open spec fn spec_byte(self) -> u8 {
        let run = if self.cpu_run_request { 1int } else { 0 };
        let upload = if self.host_upload_enable { 2int } else { 0 };
        (run + upload) as u8
    }

    pub fn into_byte(self) -> (r: u8)
        ensures
            r == self.spec_byte(),
    {
        let run: u8 = if self.cpu_run_request { 1 } else { 0 };
        let upload: u8 = if self.host_upload_enable { 2 } else { 0 };
        run + upload
    }
}

impl Register for ChipControl {
    const ADDR: u8 = 0x34;

    const SIZE: usize = 1;
}

impl ReadRegister for ChipControl {
    open spec fn spec_from_bytes(b: Seq<u8>) -> ChipControl {
        ChipControl { cpu_run_request: flag(b, 0), host_upload_enable: flag(b, 1) }
    }

    fn from_bytes(b: &[u8]) -> (r: ChipControl) {
        ChipControl { cpu_run_request: bit(b[0], 0), host_upload_enable: bit(b[0], 1) }
    }
}

impl WriteRegister for ChipControl {
    open spec fn spec_bytes(&self) -> Seq<u8> {
        seq![self.spec_byte()]
    }

    fn into_bytes(&self) -> (r: Vec<u8>) {
        vec![self.into_byte()]
    }
}

/// The algorithm running on the hub (3 bits).
#[derive(Debug, Clone, Copy, PartialEq, Eq, Structural)]
pub enum AlgorithmId {
    /// Bosch Sensortec BSX fusion library, code 0.
    BSX,
}

/// The host interface flavour (3 bits).
#[derive(Debug, Clone, Copy, PartialEq, Eq, Structural)]
pub enum HostIfId {
    /// Code 0.
    AndroidK,
    /// Code 1.
    AndroidL,
}

/// Status of the hub. The two identifiers are `None` when their bits hold a
/// code that names none.
#[derive(Debug, Clone, Copy, PartialEq, Eq, Structural)]
pub struct HostStatus {
    /// Set after a power-on reset or a requested reset.
    pub reset: bool,
    /// Confirms that a requested algorithm standby has taken effect.
    pub algorithm_standby: bool,
    /// Bits 2 to 4.
    pub host_if_id: Option<HostIfId>,
    /// Bits 5 to 7.
    pub algorithm_id: Option<AlgorithmId>,
}

impl Register for HostStatus {
    const ADDR: u8 = 0x35;

    const SIZE: usize = 1;
}

impl ReadRegister for HostStatus {
    open spec fn spec_from_bytes(b: Seq<u8>) -> HostStatus {
        HostStatus {
            reset: flag(b, 0),
            algorithm_standby: flag(b, 1),
            host_if_id: if (b[0] >> 2u8) & 7u8 == 0 {
                Some(HostIfId::AndroidK)
            } else if (b[0] >> 2u8) & 7u8 == 1 {
                Some(HostIfId::AndroidL)
            } else {
                None
            },
            algorithm_id: if b[0] >> 5u8 == 0 {
                Some(AlgorithmId::BSX)
            } else {
                None
            },
        }
    }

    fn from_bytes(b: &[u8]) -> (r: HostStatus) {
        let host_if = (b[0] >> 2u8) & 7u8;
        HostStatus {
            reset: bit(b[0], 0),
            algorithm_standby: bit(b[0], 1),
            host_if_id: if host_if == 0 {
                Some(HostIfId::AndroidK)
            } else if host_if == 1 {
                Some(HostIfId::AndroidL)
            } else {
                None
            },
            algorithm_id: if b[0] >> 5u8 == 0 {
                Some(AlgorithmId::BSX)
            } else {
                None
            },
        }
    }
}

/// Host interrupt status, for hosts that do not watch the interrupt line.
#[derive(Debug, Clone, Copy, PartialEq, Eq, Structural)]
pub struct IntStatus {
    pub host_interrupt: bool,
    pub wakeup_watermark: bool,
    pub wakeup_latency: bool,
    pub wakeup_immediate: bool,
    pub non_wakeup_watermark: bool,
    pub non_wakeup_latency: bool,
    pub non_wakeup_immediate: bool,
}

impl Register for IntStatus {
    const ADDR: u8 = 0x36;

    const SIZE: usize = 1;
}

impl ReadRegister for IntStatus {
    open spec fn spec_from_bytes(b: Seq<u8>) -> IntStatus {
        IntStatus {
            host_interrupt: flag(b, 0),
            wakeup_watermark: flag(b, 1),
            wakeup_latency: flag(b, 2),
            wakeup_immediate: flag(b, 3),
            non_wakeup_watermark: flag(b, 4),
            non_wakeup_latency: flag(b, 5),
            non_wakeup_immediate: flag(b, 6),
        }
    }

    fn from_bytes(b: &[u8]) -> (r: IntStatus) {
        IntStatus {
            host_interrupt: bit(b[0], 0),
            wakeup_watermark: bit(b[0], 1),
            wakeup_latency: bit(b[0], 2),
            wakeup_immediate: bit(b[0], 3),
            non_wakeup_watermark: bit(b[0], 4),
            non_wakeup_latency: bit(b[0], 5),
            non_wakeup_immediate: bit(b[0], 6),
        }
    }
}

/// How the boot went.
#[derive(Debug, Clone, Copy, PartialEq, Eq, Structural)]
pub struct ChipStatus {
    pub eeprom_detected: bool,
    pub ee_upload_done: bool,
    pub ee_upload_error: bool,
    pub firmware_idle: bool,
    pub no_eeprom: bool,
}

impl Register for ChipStatus {
    const ADDR: u8 = 0x37;

    const SIZE: usize = 1;
}

impl ReadRegister for ChipStatus {
    open spec fn spec_from_bytes(b: Seq<u8>) -> ChipStatus {
        ChipStatus {
            eeprom_detected: flag(b, 0),
            ee_upload_done: flag(b, 1),
            ee_upload_error: flag(b, 2),
            firmware_idle: flag(b, 3),
            no_eeprom: flag(b, 4),
        }
    }

    fn from_bytes(b: &[u8]) -> (r: ChipStatus) {
        ChipStatus {
            eeprom_detected: bit(b[0], 0),
            ee_upload_done: bit(b[0], 1),
            ee_upload_error: bit(b[0], 2),
            firmware_idle: bit(b[0], 3),
            no_eeprom: bit(b[0], 4),
        }
    }
}

/// The number of bytes waiting in the FIFO.
#[derive(Debug, Clone, Copy, PartialEq, Eq, Structural)]
pub struct BytesRemaining(pub u16);

impl Register for BytesRemaining {
    const ADDR: u8 = 0x38;

    const SIZE: usize = 2;
}

impl ReadRegister for BytesRemaining {
    open spec fn spec_from_bytes(b: Seq<u8>) -> BytesRemaining {
        BytesRemaining(u16_le(b) as u16)
    }

    fn from_bytes(b: &[u8]) -> (r: BytesRemaining) {
        BytesRemaining(read_u16(b))
    }
}

/// The hub's answer to a parameter request.
#[derive(Debug, Clone, Copy, PartialEq, Eq, Structural)]
pub enum ParameterAcknowledge {
    /// The request byte of the request that was served.
    RequestId(u8),
    /// The page or parameter is not supported.
    Error,
}

impl ParameterAcknowledge {
    pub fn from_byte(b: u8) -> (r: ParameterAcknowledge)
        ensures
            r == (if b == 0x80 {
                ParameterAcknowledge::Error
            } else {
                ParameterAcknowledge::RequestId(b)
            }),
    {
        if b == 0x80 {
            ParameterAcknowledge::Error
        } else {
            ParameterAcknowledge::RequestId(b)
        }
    }
}

impl Register for ParameterAcknowledge {
    const ADDR: u8 = 0x3A;

    const SIZE: usize = 1;
}

impl ReadRegister for ParameterAcknowledge {
    open spec fn spec_from_bytes(b: Seq<u8>) -> ParameterAcknowledge {
        if b[0] == 0x80 {
            ParameterAcknowledge::Error
        } else {
            ParameterAcknowledge::RequestId(b[0])
        }
    }

    fn from_bytes(b: &[u8]) -> (r: ParameterAcknowledge) {
        ParameterAcknowledge::from_byte(b[0])
    }
}

/// The size field of the page-select register for a transfer of `width`
/// bytes, where `max` is the largest width in that direction (16 for reads, 8
/// for writes): the largest width is written as 0.
pub open spec fn spec_size_field(width: u8, max: u8) -> u8 {
    if width == max {
        0
    } else {
        width
    }
}

/// The size field of the page-select register for a transfer of `width`
/// bytes, where `max` is the largest width in that direction (16 for reads, 8
/// for writes): the largest width is written as 0, any other as itself.
pub fn size_field(width: u8, max: u8) -> (r: u8)
    requires
        1 <= width <= max,
        max <= 16,
    ensures
        r == spec_size_field(width, max),
        r < 16,
{
    if width == max {
        0
    } else {
        width
    }
}

/// Selects the page and the size of the next parameter transfer.
#[derive(Debug, Clone, Copy, PartialEq, Eq, Structural)]
pub struct ParameterPageSelect {
    pub parameter_page: ParameterPage,
    /// The size in bytes; 0 for the largest (16 for reads, 8 for writes).
    pub parameter_size: u8,
}

/// The page-select byte: the page code in the low nibble, the size field in
/// the high one.
pub open spec fn page_select_byte(page: ParameterPage, size: u8) -> u8 {
    (page.spec_code() + 16 * size) as u8
}

impl ParameterPageSelect {
    pub fn into_byte(self) -> (r: u8)
        requires
            self.parameter_size < 16,
        ensures
            r == page_select_byte(self.parameter_page, self.parameter_size),
    {
        self.parameter_page.code() + 16 * self.parameter_size
    }
}

impl Register for ParameterPageSelect {
    const ADDR: u8 = 0x54;

    const SIZE: usize = 1;
}

/// Controls miscellaneous features of the host interface.
#[derive(Debug, Clone, Copy, PartialEq, Eq, Structural)]
pub struct HostInterfaceControl {
    /// Pauses the algorithm and shuts down all sensors while set.
    pub algorithm_standby_request: bool,
    /// Discards the pending FIFO transfer.
    pub abort_transfer: bool,
    /// Asks for a fresh value in the bytes-remaining register.
    pub update_transfer_count: bool,
    /// Masks the interrupt of the wakeup FIFO.
    pub wakeup_fifo_host_interrupt_disable: bool,
    /// North-east-down coordinates instead of east-north-up.
    pub ned_coordinates: bool,
    /// Only wakeup sensor events may wake the host.
    pub ap_suspended: bool,
    /// Requests a self test when leaving standby.
    pub request_sensor_self_test: bool,
    /// Masks the interrupt of the non-wakeup FIFO.
    pub non_wakeup_fifo_host_interrupt_disable: bool,
}

impl Register for HostInterfaceControl {
    const ADDR: u8 = 0x55;

    const SIZE: usize = 1;
}

impl ReadRegister for HostInterfaceControl {
    open spec fn spec_from_bytes(b: Seq<u8>) -> HostInterfaceControl {
        HostInterfaceControl {
            algorithm_standby_request: flag(b, 0),
            abort_transfer: flag(b, 1),
            update_transfer_count: flag(b, 2),
            wakeup_fifo_host_interrupt_disable: flag(b, 3),
            ned_coordinates: flag(b, 4),
            ap_suspended: flag(b, 5),
            request_sensor_self_test: flag(b, 6),
            non_wakeup_fifo_host_interrupt_disable: flag(b, 7),
        }
    }

    fn from_bytes(b: &[u8]) -> (r: HostInterfaceControl) {
        HostInterfaceControl {
            algorithm_standby_request: bit(b[0], 0),
            abort_transfer: bit(b[0], 1),
            update_transfer_count: bit(b[0], 2),
            wakeup_fifo_host_interrupt_disable: bit(b[0], 3),
            ned_coordinates: bit(b[0], 4),
            ap_suspended: bit(b[0], 5),
            request_sensor_self_test: bit(b[0], 6),
            non_wakeup_fifo_host_interrupt_disable: bit(b[0], 7),
        }
    }
}

impl WriteRegister for HostInterfaceControl {
    open spec fn spec_bytes(&self) -> Seq<u8> {
        seq![
            pack_bits(
                if self.algorithm_standby_request { 1u8 } else { 0u8 },
                if self.abort_transfer { 1u8 } else { 0u8 },
                if self.update_transfer_count { 1u8 } else { 0u8 },
                if self.wakeup_fifo_host_interrupt_disable { 1u8 } else { 0u8 },
                if self.ned_coordinates { 1u8 } else { 0u8 },
                if self.ap_suspended { 1u8 } else { 0u8 },
                if self.request_sensor_self_test { 1u8 } else { 0u8 },
                if self.non_wakeup_fifo_host_interrupt_disable { 1u8 } else { 0u8 },
            ),
        ]
    }

    fn into_bytes(&self) -> (r: Vec<u8>) {
        let x0 = bit_value(self.algorithm_standby_request);
        let x1 = bit_value(self.abort_transfer);
        let x2 = bit_value(self.update_transfer_count);
        let x3 = bit_value(self.wakeup_fifo_host_interrupt_disable);
        let x4 = bit_value(self.ned_coordinates);
        let x5 = bit_value(self.ap_suspended);
        let x6 = bit_value(self.request_sensor_self_test);
        let x7 = bit_value(self.non_wakeup_fifo_host_interrupt_disable);
        vec![
            x0 | (x1 << 1u8) | (x2 << 2u8) | (x3 << 3u8) | (x4 << 4u8) | (x5 << 5u8) | (x6 << 6u8)
                | (x7 << 7u8),
        ]
    }
}

/// The direction of a parameter request.
#[derive(Debug, Clone, Copy, PartialEq, Eq, Structural)]
pub enum Request {
    Read,
    Write,
}

/// Requests a parameter transfer.
#[derive(Debug, Clone, Copy, PartialEq, Eq, Structural)]
pub struct ParameterRequest {
    /// The parameter number within the page (7 bits).
    pub parameter: u8,
    pub request: Request,
}

/// The request byte: the parameter number in the low seven bits, the
/// direction in the top bit (set for a write).
pub open spec fn request_byte(parameter: u8, request: Request) -> u8 {
    (parameter + if request == Request::Write { 128int } else { 0 }) as u8
}

impl ParameterRequest {
    pub fn into_byte(self) -> (r: u8)
        requires
            self.parameter < 128,
        ensures
            r == request_byte(self.parameter, self.request),
    {
        match self.request {
            Request::Read => self.parameter,
            Request::Write => self.parameter + 128,
        }
    }
}

impl Register for ParameterRequest {
    const ADDR: u8 = 0x64;

    const SIZE: usize = 1;
}

impl ReadRegister for ParameterRequest {
    open spec fn spec_from_bytes(b: Seq<u8>) -> ParameterRequest {
        ParameterRequest {
            parameter: (b[0] % 128) as u8,
            request: if b[0] >= 128 {
                Request::Write
            } else {
                Request::Read
            },
        }
    }

    fn from_bytes(b: &[u8]) -> (r: ParameterRequest) {
        ParameterRequest {
            parameter: b[0] % 128,
            request: if b[0] >= 128 {
                Request::Write
            } else {
                Request::Read
            },
        }
    }
}

/// The software version of the ROM (`0x2112` for a BHI160, `0x2DAD` for a
/// BHI160B).
#[derive(Debug, Clone, Copy, PartialEq, Eq, Structural)]
pub struct RomVersion(pub u16);

impl Register for RomVersion {
    const ADDR: u8 = 0x70;

    const SIZE: usize = 2;
}

impl ReadRegister for RomVersion {
    open spec fn spec_from_bytes(b: Seq<u8>) -> RomVersion {
        RomVersion(u16_le(b) as u16)
    }

    fn from_bytes(b: &[u8]) -> (r: RomVersion) {
        RomVersion(read_u16(b))
    }
}

/// The software version of the RAM patch (0 when there is none).
#[derive(Debug, Clone, Copy, PartialEq, Eq, Structural)]
pub struct RamVersion(pub u16);

impl Register for RamVersion {
    const ADDR: u8 = 0x72;

    const SIZE: usize = 2;
}

impl ReadRegister for RamVersion {
    open spec fn spec_from_bytes(b: Seq<u8>) -> RamVersion {
        RamVersion(u16_le(b) as u16)
    }

    fn from_bytes(b: &[u8]) -> (r: RamVersion) {
        RamVersion(read_u16(b))
    }
}

/// The product id (`0x83` for a BHI160 or BHI160B).
#[derive(Debug, Clone, Copy, PartialEq, Eq, Structural)]
pub struct ProductId(pub u8);

impl Register for ProductId {
    const ADDR: u8 = 0x90;

    const SIZE: usize = 1;
}

impl ReadRegister for ProductId {
    open spec fn spec_from_bytes(b: Seq<u8>) -> ProductId {
        ProductId(b[0])
    }

    fn from_bytes(b: &[u8]) -> (r: ProductId) {
        ProductId(b[0])
    }
}

/// The revision id (`0x01` for a BHI160, `0x03` for a BHI160B).
#[derive(Debug, Clone, Copy, PartialEq, Eq, Structural)]
pub struct RevisionId(pub u8);

impl Register for RevisionId {
    const ADDR: u8 = 0x91;

    const SIZE: usize = 1;
}

impl ReadRegister for RevisionId {
    open spec fn spec_from_bytes(b: Seq<u8>) -> RevisionId {
        RevisionId(b[0])
    }

    fn from_bytes(b: &[u8]) -> (r: RevisionId) {
        RevisionId(b[0])
    }
}

/// Where the next uploaded bytes go; written as 0 before an upload. Big endian.
#[derive(Debug, Clone, Copy, PartialEq, Eq, Structural)]
pub struct UploadAddress(pub u16);

impl Register for UploadAddress {
    const ADDR: u8 = 0x94;

    const SIZE: usize = 2;
}

impl ReadRegister for UploadAddress {
    open spec fn spec_from_bytes(b: Seq<u8>) -> UploadAddress {
        UploadAddress((256 * b[0] + b[1]) as u16)
    }

    fn from_bytes(b: &[u8]) -> (r: UploadAddress) {
        UploadAddress(256 * (b[0] as u16) + b[1] as u16)
    }
}

impl WriteRegister for UploadAddress {
    open spec fn spec_bytes(&self) -> Seq<u8> {
        seq![(self.0 / 256) as u8, (self.0 % 256) as u8]
    }

    fn into_bytes(&self) -> (r: Vec<u8>) {
        vec![(self.0 / 256) as u8, (self.0 % 256) as u8]
    }
}

/// The CRC the hub computed over the uploaded firmware.
#[derive(Debug, Clone, Copy, PartialEq, Eq, Structural)]
pub struct UploadCrc(pub u32);

impl Register for UploadCrc {
    const ADDR: u8 = 0x97;

    const SIZE: usize = 4;
}

impl ReadRegister for UploadCrc {
    open spec fn spec_from_bytes(b: Seq<u8>) -> UploadCrc {
        UploadCrc(u32_le(b) as u32)
    }

    fn from_bytes(b: &[u8]) -> (r: UploadCrc) {
        UploadCrc(read_u32(b))
    }
}

/// Writing it resets the hub.
#[derive(Debug, Clone, Copy, PartialEq, Eq, Structural)]
pub struct ResetRequest;

impl Register for ResetRequest {
    const ADDR: u8 = 0x9B;

    const SIZE: usize = 1;
}

impl WriteRegister for ResetRequest {
    open spec fn spec_bytes(&self) -> Seq<u8> {
        seq![1u8]
    }

    fn into_bytes(&self) -> (r: Vec<u8>) {
        vec![1]
    }
}

} // verus!
