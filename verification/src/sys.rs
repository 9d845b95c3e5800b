//! Wire-level types of the Livox-SDK2 C API.
//!
//! The SDK lays these records out packed (`#pragma pack(1)`) and little-endian.
//! Here each record is a plain value; the byte layout is stated by the spec
//! functions `*_header_bytes` and read back by the `from_bytes` parsers.

use vstd::prelude::*;
use crate::wire::{
    lemma_little_endian_fields, lemma_written_bytes_little_endian, le_u16, le_u32, lemma_u16_bytes_roundtrip, lemma_u32_bytes_roundtrip, push_all, push_u16, push_u32,
    read_u16, read_u32, u16_bytes, u32_bytes,
};

verus! {

/// A raw SDK status code.
#[allow(non_camel_case_types)]
pub type livox_status = i32;

/// Bytes before the payload of a `LivoxLidarEthernetPacket` (its `data` member).
pub const ETHERNET_HEADER_BYTES: usize = 36;

/// Bytes before the payload of a `LivoxLidarCmdPacket` (its `data` member).
pub const CMD_HEADER_BYTES: usize = 24;

/// Header of a point cloud / IMU packet; the payload follows it on the wire.
#[derive(Clone, Copy, Debug, PartialEq, Eq)]
pub struct LivoxLidarEthernetPacket {
    pub version: u8,
    /// Total packet length in bytes, header included.
    pub length: u16,
    /// Unit: 0.1 us
    pub time_interval: u16,
    pub dot_num: u16,
    pub udp_cnt: u16,
    pub frame_cnt: u8,
    pub data_type: u8,
    pub time_type: u8,
    pub rsvd: [u8; 12],
    pub crc32: u32,
    pub timestamp: [u8; 8],
}

/// The header bytes of `h`, in wire order.
pub open spec fn ethernet_header_bytes(h: LivoxLidarEthernetPacket) -> Seq<u8> {
    seq![h.version] + u16_bytes(h.length) + u16_bytes(h.time_interval) + u16_bytes(h.dot_num)
        + u16_bytes(h.udp_cnt) + seq![h.frame_cnt, h.data_type, h.time_type] + h.rsvd@
        + u32_bytes(h.crc32) + h.timestamp@
}

/// `h` is the header stored at the start of `b`.
pub open spec fn is_ethernet_header_of(h: LivoxLidarEthernetPacket, b: Seq<u8>) -> bool {
    &&& b.len() >= 36
    &&& h.version == b[0]
    &&& h.length as int == le_u16(b, 1)
    &&& h.time_interval as int == le_u16(b, 3)
    &&& h.dot_num as int == le_u16(b, 5)
    &&& h.udp_cnt as int == le_u16(b, 7)
    &&& h.frame_cnt == b[9]
    &&& h.data_type == b[10]
    &&& h.time_type == b[11]
    &&& h.rsvd@ == b.subrange(12, 24)
    &&& h.crc32 as int == le_u32(b, 24)
    &&& h.timestamp@ == b.subrange(28, 36)
}

/// The header of `b` is present and its `length` covers the header and lies within `b`.
pub open spec fn ethernet_length_ok(b: Seq<u8>) -> bool {
    &&& b.len() >= 36
    &&& 36 <= le_u16(b, 1) <= b.len()
}

fn take_8(b: &[u8], off: usize) -> (r: [u8; 8])
    requires
        off + 8 <= b@.len(),
    ensures
        r@ == b@.subrange(off as int, off + 8),
{
    let r = [b[off], b[off + 1], b[off + 2], b[off + 3], b[off + 4], b[off + 5], b[off + 6], b[off + 7]];
    assert(r@ =~= b@.subrange(off as int, off + 8));
    r
}

fn take_6(b: &[u8], off: usize) -> (r: [u8; 6])
    requires
        off + 6 <= b@.len(),
    ensures
        r@ == b@.subrange(off as int, off + 6),
{
    let r = [b[off], b[off + 1], b[off + 2], b[off + 3], b[off + 4], b[off + 5]];
    assert(r@ =~= b@.subrange(off as int, off + 6));
    r
}

fn take_12(b: &[u8], off: usize) -> (r: [u8; 12])
    requires
        off + 12 <= b@.len(),
    ensures
        r@ == b@.subrange(off as int, off + 12),
{
    let r = [
        b[off],
        b[off + 1],
        b[off + 2],
        b[off + 3],
        b[off + 4],
        b[off + 5],
        b[off + 6],
        b[off + 7],
        b[off + 8],
        b[off + 9],
        b[off + 10],
        b[off + 11],
    ];
    assert(r@ =~= b@.subrange(off as int, off + 12));
    r
}

impl LivoxLidarEthernetPacket {
    /// Reads the header at the start of `b`; `None` when `b` is shorter than a header.
    pub fn from_bytes(b: &[u8]) -> (r: Option<LivoxLidarEthernetPacket>)
        ensures
            r is Some <==> b@.len() >= 36,
            r matches Some(h) ==> is_ethernet_header_of(h, b@),
    {
        if b.len() < ETHERNET_HEADER_BYTES {
            return None;
        }
        Some(
            LivoxLidarEthernetPacket {
                version: b[0],
                length: read_u16(b, 1),
                time_interval: read_u16(b, 3),
                dot_num: read_u16(b, 5),
                udp_cnt: read_u16(b, 7),
                frame_cnt: b[9],
                data_type: b[10],
                time_type: b[11],
                rsvd: take_12(b, 12),
                crc32: read_u32(b, 24),
                timestamp: take_8(b, 28),
            },
        )
    }

    /// The header's wire bytes (the payload is not included).
    pub fn to_bytes(&self) -> (r: Vec<u8>)
        ensures
            r@ == ethernet_header_bytes(*self),
            r@.len() == 36,
    {
        let mut out: Vec<u8> = Vec::new();
        out.push(self.version);
        push_u16(&mut out, self.length);
        push_u16(&mut out, self.time_interval);
        push_u16(&mut out, self.dot_num);
        push_u16(&mut out, self.udp_cnt);
        out.push(self.frame_cnt);
        out.push(self.data_type);
        out.push(self.time_type);
        push_all(&mut out, self.rsvd.as_slice());
        push_u32(&mut out, self.crc32);
        push_all(&mut out, self.timestamp.as_slice());
        assert(out@ =~= ethernet_header_bytes(*self));
        out
    }
}

/// Reading back the bytes of a header, whatever follows them, gives that header.
pub proof fn lemma_ethernet_header_roundtrip(h: LivoxLidarEthernetPacket, rest: Seq<u8>)
    ensures
        is_ethernet_header_of(h, ethernet_header_bytes(h) + rest),
{
    let s = ethernet_header_bytes(h) + rest;
    assert(s.subrange(1, 3) =~= u16_bytes(h.length));
    assert(s.subrange(3, 5) =~= u16_bytes(h.time_interval));
    assert(s.subrange(5, 7) =~= u16_bytes(h.dot_num));
    assert(s.subrange(7, 9) =~= u16_bytes(h.udp_cnt));
    assert(s.subrange(24, 28) =~= u32_bytes(h.crc32));
    lemma_u16_bytes_roundtrip(h.length, s, 1);
    lemma_u16_bytes_roundtrip(h.time_interval, s, 3);
    lemma_u16_bytes_roundtrip(h.dot_num, s, 5);
    lemma_u16_bytes_roundtrip(h.udp_cnt, s, 7);
    lemma_u32_bytes_roundtrip(h.crc32, s, 24);
    assert(s.subrange(12, 24) =~= h.rsvd@);
    assert(s.subrange(28, 36) =~= h.timestamp@);
}


/// Header of a command packet; the payload follows it on the wire.
#[derive(Clone, Copy, Debug, PartialEq, Eq)]
pub struct LivoxLidarCmdPacket {
    pub sof: u8,
    pub version: u8,
    /// Total packet length in bytes, header included.
    pub length: u16,
    pub seq_num: u32,
    pub cmd_id: u16,
    pub cmd_type: u8,
    pub sender_type: u8,
    pub rsvd: [u8; 6],
    pub crc16_h: u16,
    pub crc32_d: u32,
}

/// The header bytes of `h`, in wire order.
pub open spec fn cmd_header_bytes(h: LivoxLidarCmdPacket) -> Seq<u8> {
    seq![h.sof, h.version] + u16_bytes(h.length) + u32_bytes(h.seq_num) + u16_bytes(h.cmd_id)
        + seq![h.cmd_type, h.sender_type] + h.rsvd@ + u16_bytes(h.crc16_h) + u32_bytes(h.crc32_d)
}

/// `h` is the command header stored at the start of `b`.
pub open spec fn is_cmd_header_of(h: LivoxLidarCmdPacket, b: Seq<u8>) -> bool {
    &&& b.len() >= 24
    &&& h.sof == b[0]
    &&& h.version == b[1]
    &&& h.length as int == le_u16(b, 2)
    &&& h.seq_num as int == le_u32(b, 4)
    &&& h.cmd_id as int == le_u16(b, 8)
    &&& h.cmd_type == b[10]
    &&& h.sender_type == b[11]
    &&& h.rsvd@ == b.subrange(12, 18)
    &&& h.crc16_h as int == le_u16(b, 18)
    &&& h.crc32_d as int == le_u32(b, 20)
}

impl LivoxLidarCmdPacket {
    /// Reads the command header at the start of `b`; `None` when `b` is shorter than a header.
    pub fn from_bytes(b: &[u8]) -> (r: Option<LivoxLidarCmdPacket>)
        ensures
            r is Some <==> b@.len() >= 24,
            r matches Some(h) ==> is_cmd_header_of(h, b@),
    {
        if b.len() < CMD_HEADER_BYTES {
            return None;
        }
        Some(
            LivoxLidarCmdPacket {
                sof: b[0],
                version: b[1],
                length: read_u16(b, 2),
                seq_num: read_u32(b, 4),
                cmd_id: read_u16(b, 8),
                cmd_type: b[10],
                sender_type: b[11],
                rsvd: take_6(b, 12),
                crc16_h: read_u16(b, 18),
                crc32_d: read_u32(b, 20),
            },
        )
    }

    /// The header's wire bytes (the payload is not included).
    pub fn to_bytes(&self) -> (r: Vec<u8>)
        ensures
            r@ == cmd_header_bytes(*self),
            r@.len() == 24,
    {
        let mut out: Vec<u8> = Vec::new();
        out.push(self.sof);
        out.push(self.version);
        push_u16(&mut out, self.length);
        push_u32(&mut out, self.seq_num);
        push_u16(&mut out, self.cmd_id);
        out.push(self.cmd_type);
        out.push(self.sender_type);
        push_all(&mut out, self.rsvd.as_slice());
        push_u16(&mut out, self.crc16_h);
        push_u32(&mut out, self.crc32_d);
        assert(out@ =~= cmd_header_bytes(*self));
        out
    }
}

/// Reading back the bytes of a command header, whatever follows them, gives that header.
pub proof fn lemma_cmd_header_roundtrip(h: LivoxLidarCmdPacket, rest: Seq<u8>)
    ensures
        is_cmd_header_of(h, cmd_header_bytes(h) + rest),
{
    let s = cmd_header_bytes(h) + rest;
    assert(s.subrange(2, 4) =~= u16_bytes(h.length));
    assert(s.subrange(4, 8) =~= u32_bytes(h.seq_num));
    assert(s.subrange(8, 10) =~= u16_bytes(h.cmd_id));
    assert(s.subrange(18, 20) =~= u16_bytes(h.crc16_h));
    assert(s.subrange(20, 24) =~= u32_bytes(h.crc32_d));
    lemma_u16_bytes_roundtrip(h.length, s, 2);
    lemma_u32_bytes_roundtrip(h.seq_num, s, 4);
    lemma_u16_bytes_roundtrip(h.cmd_id, s, 8);
    lemma_u16_bytes_roundtrip(h.crc16_h, s, 18);
    lemma_u32_bytes_roundtrip(h.crc32_d, s, 20);
    assert(s.subrange(12, 18) =~= h.rsvd@);
}

/// Status codes returned by the SDK.
#[derive(Debug, Clone, Copy, PartialEq, Eq, Structural)]
pub enum LivoxLidarStatus {
    SendFailed,
    HandlerImplNotExist,
    InvalidHandle,
    ChannelNotExist,
    NotEnoughMemory,
    Timeout,
    NotSupported,
    NotConnected,
    Failure,
    Success,
}

/// The SDK's numeric value for each status.
pub open spec fn status_code(s: LivoxLidarStatus) -> int {
    match s {
        LivoxLidarStatus::SendFailed => -9,
        LivoxLidarStatus::HandlerImplNotExist => -8,
        LivoxLidarStatus::InvalidHandle => -7,
        LivoxLidarStatus::ChannelNotExist => -6,
        LivoxLidarStatus::NotEnoughMemory => -5,
        LivoxLidarStatus::Timeout => -4,
        LivoxLidarStatus::NotSupported => -3,
        LivoxLidarStatus::NotConnected => -2,
        LivoxLidarStatus::Failure => -1,
        LivoxLidarStatus::Success => 0,
    }
}

impl LivoxLidarStatus {
    /// The SDK's numeric value for this status.
    pub fn code(self) -> (r: i32)
        ensures
            r as int == status_code(self),
    {
        match self {
            LivoxLidarStatus::SendFailed => -9,
            LivoxLidarStatus::HandlerImplNotExist => -8,
            LivoxLidarStatus::InvalidHandle => -7,
            LivoxLidarStatus::ChannelNotExist => -6,
            LivoxLidarStatus::NotEnoughMemory => -5,
            LivoxLidarStatus::Timeout => -4,
            LivoxLidarStatus::NotSupported => -3,
            LivoxLidarStatus::NotConnected => -2,
            LivoxLidarStatus::Failure => -1,
            LivoxLidarStatus::Success => 0,
        }
    }
}

/// Point data format requested from the device.
#[derive(Debug, Clone, Copy, PartialEq, Eq, Structural)]
pub enum LivoxLidarPointDataType {
    Imu,
    CartesianCoordinateHigh,
    CartesianCoordinateLow,
    SphericalCoordinate,
}

impl LivoxLidarPointDataType {
    /// The SDK's numeric value for this data type.
    pub fn code(self) -> (r: i32)
        ensures
            r == (match self {
                LivoxLidarPointDataType::Imu => 0i32,
                LivoxLidarPointDataType::CartesianCoordinateHigh => 1,
                LivoxLidarPointDataType::CartesianCoordinateLow => 2,
                LivoxLidarPointDataType::SphericalCoordinate => 3,
            }),
    {
        match self {
            LivoxLidarPointDataType::Imu => 0,
            LivoxLidarPointDataType::CartesianCoordinateHigh => 1,
            LivoxLidarPointDataType::CartesianCoordinateLow => 2,
            LivoxLidarPointDataType::SphericalCoordinate => 3,
        }
    }
}

/// Scan pattern of the device.
#[derive(Debug, Clone, Copy, PartialEq, Eq, Structural)]
pub enum LivoxLidarScanPattern {
    NoneRepetive,
    Repetive,
    RepetiveLowFrameRate,
}

impl LivoxLidarScanPattern {
    /// The SDK's numeric value for this pattern.
    pub fn code(self) -> (r: i32)
        ensures
            r == (match self {
                LivoxLidarScanPattern::NoneRepetive => 0i32,
                LivoxLidarScanPattern::Repetive => 1,
                LivoxLidarScanPattern::RepetiveLowFrameRate => 2,
            }),
    {
        match self {
            LivoxLidarScanPattern::NoneRepetive => 0,
            LivoxLidarScanPattern::Repetive => 1,
            LivoxLidarScanPattern::RepetiveLowFrameRate => 2,
        }
    }
}

/// Detection mode of the device.
#[derive(Debug, Clone, Copy, PartialEq, Eq, Structural)]
pub enum LivoxLidarDetectMode {
    Normal,
    Sensitive,
}

impl LivoxLidarDetectMode {
    /// The SDK's numeric value for this mode.
    pub fn code(self) -> (r: i32)
        ensures
            r == (match self {
                LivoxLidarDetectMode::Normal => 0i32,
                LivoxLidarDetectMode::Sensitive => 1,
            }),
    {
        match self {
            LivoxLidarDetectMode::Normal => 0,
            LivoxLidarDetectMode::Sensitive => 1,
        }
    }
}

/// Work mode of the device.
#[derive(Debug, Clone, Copy, PartialEq, Eq, Structural)]
pub enum LivoxLidarWorkMode {
    Normal,
    WakeUp,
    Sleep,
    Error,
    PowerOnSelfTest,
    MotorStarting,
    MotorStoping,
    Upgrade,
}

impl LivoxLidarWorkMode {
    /// The SDK's numeric value for this mode.
    pub fn code(self) -> (r: i32)
        ensures
            r == (match self {
                LivoxLidarWorkMode::Normal => 1i32,
                LivoxLidarWorkMode::WakeUp => 2,
                LivoxLidarWorkMode::Sleep => 3,
                LivoxLidarWorkMode::Error => 4,
                LivoxLidarWorkMode::PowerOnSelfTest => 5,
                LivoxLidarWorkMode::MotorStarting => 6,
                LivoxLidarWorkMode::MotorStoping => 7,
                LivoxLidarWorkMode::Upgrade => 8,
            }),
    {
        match self {
            LivoxLidarWorkMode::Normal => 1,
            LivoxLidarWorkMode::WakeUp => 2,
            LivoxLidarWorkMode::Sleep => 3,
            LivoxLidarWorkMode::Error => 4,
            LivoxLidarWorkMode::PowerOnSelfTest => 5,
            LivoxLidarWorkMode::MotorStarting => 6,
            LivoxLidarWorkMode::MotorStoping => 7,
            LivoxLidarWorkMode::Upgrade => 8,
        }
    }
}

/// Work mode the device enters after boot.
#[derive(Debug, Clone, Copy, PartialEq, Eq, Structural)]
pub enum LivoxLidarWorkModeAfterBoot {
    Default,
    Normal,
    WakeUp,
}

impl LivoxLidarWorkModeAfterBoot {
    /// The SDK's numeric value for this mode.
    pub fn code(self) -> (r: i32)
        ensures
            r == (match self {
                LivoxLidarWorkModeAfterBoot::Default => 0i32,
                LivoxLidarWorkModeAfterBoot::Normal => 1,
                LivoxLidarWorkModeAfterBoot::WakeUp => 2,
            }),
    {
        match self {
            LivoxLidarWorkModeAfterBoot::Default => 0,
            LivoxLidarWorkModeAfterBoot::Normal => 1,
            LivoxLidarWorkModeAfterBoot::WakeUp => 2,
        }
    }
}

/// Functional IO configuration.
#[derive(Debug, Clone, Copy, PartialEq, Eq, Structural)]
pub struct FuncIOCfg {
    pub in0: u8,
    pub int1: u8,
    pub out0: u8,
    pub out1: u8,
}

/// Reply to an asynchronous control command.
#[derive(Debug, Clone, Copy, PartialEq, Eq, Structural)]
pub struct LivoxLidarAsyncControlResponse {
    pub ret_code: u8,
    pub error_key: u16,
}

/// Reply to a reset request.
#[derive(Debug, Clone, Copy, PartialEq, Eq, Structural)]
pub struct LivoxLidarResetResponse {
    pub ret_code: u8,
}

/// Reply to a reboot request.
#[derive(Debug, Clone, Copy, PartialEq, Eq, Structural)]
pub struct LivoxLidarRebootResponse {
    pub ret_code: u8,
}

/// Reply to a logger start/stop request.
#[derive(Debug, Clone, Copy, PartialEq, Eq, Structural)]
pub struct LivoxLidarLoggerResponse {
    pub ret_code: u8,
}

/// Reply to an RMC time synchronisation request.
#[derive(Debug, Clone, Copy, PartialEq, Eq, Structural)]
pub struct LivoxLidarRmcSyncTimeResponse {
    pub ret: u8,
}

/// Device identification as reported by the SDK (C strings, NUL-padded).
#[derive(Debug, Clone, Copy, PartialEq, Eq)]
pub struct LivoxLidarInfo {
    pub dev_type: u8,
    pub sn: [u8; 16],
    pub lidar_ip: [u8; 16],
}

/// Command header layout, as the SDK's packed record lays it out: `sof` (byte 0),
/// `version` (1), `length` (2..4), `seq_num` (4..8), `cmd_id` (8..10), `cmd_type`
/// (10), `sender_type` (11), `rsvd` (12..18), `crc16_h` (18..20), `crc32_d` (20..24),
/// multi-byte fields little-endian.
#[verifier::rlimit(30)]
pub proof fn lemma_cmd_header_layout(h: LivoxLidarCmdPacket, b: Seq<u8>)
    ensures
        is_cmd_header_of(h, b) ==> {
            &&& h.sof == b[0]
            &&& h.version == b[1]
            &&& h.length as int == b[2] as int + 256 * b[3] as int
            &&& h.seq_num as int == b[4] as int + 256 * b[5] as int + 65536 * b[6] as int
                + 16777216 * b[7] as int
            &&& h.cmd_id as int == b[8] as int + 256 * b[9] as int
            &&& h.cmd_type == b[10]
            &&& h.sender_type == b[11]
            &&& h.rsvd@ == b.subrange(12, 18)
            &&& h.crc16_h as int == b[18] as int + 256 * b[19] as int
            &&& h.crc32_d as int == b[20] as int + 256 * b[21] as int + 65536 * b[22] as int
                + 16777216 * b[23] as int
        },
        cmd_header_bytes(h).len() == 24,
        cmd_header_bytes(h)[0] == h.sof,
        cmd_header_bytes(h)[1] == h.version,
        cmd_header_bytes(h)[2] as int == h.length as int % 256,
        cmd_header_bytes(h)[3] as int == h.length as int / 256,
        cmd_header_bytes(h)[4] as int == h.seq_num as int % 256,
        cmd_header_bytes(h)[7] as int == h.seq_num as int / 16777216,
        cmd_header_bytes(h)[8] as int == h.cmd_id as int % 256,
        cmd_header_bytes(h)[9] as int == h.cmd_id as int / 256,
        cmd_header_bytes(h)[10] == h.cmd_type,
        cmd_header_bytes(h)[11] == h.sender_type,
        cmd_header_bytes(h).subrange(12, 18) == h.rsvd@,
{
    lemma_little_endian_fields(b, 2);
    lemma_little_endian_fields(b, 4);
    lemma_little_endian_fields(b, 8);
    lemma_little_endian_fields(b, 18);
    lemma_little_endian_fields(b, 20);
    lemma_written_bytes_little_endian(h.length, h.seq_num);
    lemma_written_bytes_little_endian(h.cmd_id, h.crc32_d);
    let w = cmd_header_bytes(h);
    assert(w[2] == u16_bytes(h.length)[0]);
    assert(w[3] == u16_bytes(h.length)[1]);
    assert(w[4] == u32_bytes(h.seq_num)[0]);
    assert(w[7] == u32_bytes(h.seq_num)[3]);
    assert(w[8] == u16_bytes(h.cmd_id)[0]);
    assert(w[9] == u16_bytes(h.cmd_id)[1]);
    assert(w.subrange(12, 18) =~= h.rsvd@);
}

/// Ethernet header layout, as the SDK's packed record lays it out: `version`
/// (byte 0), `length` (1..3), `time_interval` (3..5), `dot_num` (5..7), `udp_cnt`
/// (7..9), `frame_cnt` (9), `data_type` (10), `time_type` (11), `rsvd` (12..24),
/// `crc32` (24..28), `timestamp` (28..36), multi-byte fields little-endian.
#[verifier::rlimit(30)]
pub proof fn lemma_ethernet_header_layout(h: LivoxLidarEthernetPacket, b: Seq<u8>)
    ensures
        is_ethernet_header_of(h, b) ==> {
            &&& h.version == b[0]
            &&& h.length as int == b[1] as int + 256 * b[2] as int
            &&& h.time_interval as int == b[3] as int + 256 * b[4] as int
            &&& h.dot_num as int == b[5] as int + 256 * b[6] as int
            &&& h.udp_cnt as int == b[7] as int + 256 * b[8] as int
            &&& h.frame_cnt == b[9]
            &&& h.data_type == b[10]
            &&& h.time_type == b[11]
            &&& h.rsvd@ == b.subrange(12, 24)
            &&& h.crc32 as int == b[24] as int + 256 * b[25] as int + 65536 * b[26] as int
                + 16777216 * b[27] as int
            &&& h.timestamp@ == b.subrange(28, 36)
        },
        ethernet_header_bytes(h).len() == 36,
        ethernet_header_bytes(h)[0] == h.version,
        ethernet_header_bytes(h)[1] as int == h.length as int % 256,
        ethernet_header_bytes(h)[2] as int == h.length as int / 256,
        ethernet_header_bytes(h)[5] as int == h.dot_num as int % 256,
        ethernet_header_bytes(h)[6] as int == h.dot_num as int / 256,
        ethernet_header_bytes(h)[9] == h.frame_cnt,
        ethernet_header_bytes(h)[10] == h.data_type,
        ethernet_header_bytes(h)[11] == h.time_type,
        ethernet_header_bytes(h).subrange(28, 36) == h.timestamp@,
{
    lemma_little_endian_fields(b, 1);
    lemma_little_endian_fields(b, 3);
    lemma_little_endian_fields(b, 5);
    lemma_little_endian_fields(b, 7);
    lemma_little_endian_fields(b, 24);
    lemma_written_bytes_little_endian(h.length, h.crc32);
    lemma_written_bytes_little_endian(h.dot_num, h.crc32);
    let w = ethernet_header_bytes(h);
    assert(w[1] == u16_bytes(h.length)[0]);
    assert(w[2] == u16_bytes(h.length)[1]);
    assert(w[5] == u16_bytes(h.dot_num)[0]);
    assert(w[6] == u16_bytes(h.dot_num)[1]);
    assert(w.subrange(28, 36) =~= h.timestamp@);
}

} // verus!
