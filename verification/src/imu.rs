//! Decoding of Livox-SDK2 IMU packets.
//!
//! An IMU packet is a 36-byte header (`sys::LivoxLidarEthernetPacket`, data type 0)
//! followed by packed samples of six little-endian IEEE-754 `f32` values. Samples
//! keep each value as its 32-bit pattern; `f32::from_bits` gives the number.

use vstd::prelude::*;
use crate::sys::{
    ethernet_header_bytes, ethernet_length_ok, is_ethernet_header_of, lemma_ethernet_header_roundtrip,
    LivoxLidarEthernetPacket, ETHERNET_HEADER_BYTES,
};
use crate::wire::{le_u16, le_u32, lemma_little_endian_fields, read_u32};

verus! {

/// A single IMU sample; each field is the bit pattern of an `f32`.
#[derive(Debug, Clone, Copy, PartialEq, Eq, Structural)]
pub struct ImuSample {
    pub gyro_x: u32,
    pub gyro_y: u32,
    pub gyro_z: u32,
    pub acc_x: u32,
    pub acc_y: u32,
    pub acc_z: u32,
}

/// A decoded IMU packet.
#[derive(Debug, Clone)]
pub struct ImuPacket {
    /// The samples decoded, in wire order.
    pub samples: Vec<ImuSample>,
    /// Raw 8-byte timestamp from the SDK packet.
    pub timestamp: [u8; 8],
}

/// The mathematical content of an `ImuPacket`.
#[verifier::ext_equal]
pub struct ImuView {
    pub samples: Seq<ImuSample>,
    pub timestamp: Seq<u8>,
}

impl View for ImuPacket {
    type V = ImuView;

    open spec fn view(&self) -> ImuView {
        ImuView { samples: self.samples@, timestamp: self.timestamp@ }
    }
}

/// Wire size of one IMU sample.
pub open spec fn imu_sample_size() -> int {
    24
}

/// The `i`-th sample of the payload of packet `b`.
pub open spec fn imu_sample_at(b: Seq<u8>, i: int) -> ImuSample {
    let off = 36 + 24 * i;
    ImuSample {
        gyro_x: le_u32(b, off) as u32,
        gyro_y: le_u32(b, off + 4) as u32,
        gyro_z: le_u32(b, off + 8) as u32,
        acc_x: le_u32(b, off + 12) as u32,
        acc_y: le_u32(b, off + 16) as u32,
        acc_z: le_u32(b, off + 20) as u32,
    }
}

/// Number of samples decoded from `b`: the header's `dot_num`, capped by how many
/// whole samples the payload holds.
pub open spec fn imu_sample_count(b: Seq<u8>) -> int {
    let dot_num = le_u16(b, 5);
    let fit = (le_u16(b, 1) - 36) / 24;
    if dot_num <= fit {
        dot_num
    } else {
        fit
    }
}

/// What decoding the IMU packet `b` yields.
pub open spec fn decode_imu(b: Seq<u8>) -> Option<ImuView> {
    if !ethernet_length_ok(b) || b[10] != 0 || imu_sample_count(b) == 0 {
        None
    } else {
        Some(
            ImuView {
                samples: Seq::new(imu_sample_count(b) as nat, |i: int| imu_sample_at(b, i)),
                timestamp: b.subrange(28, 36),
            },
        )
    }
}

/// Decoding reads only the first `length` bytes of a packet: bytes after them
/// never change the result.
pub proof fn lemma_imu_ignores_trailing_bytes(b: Seq<u8>, extra: Seq<u8>)
    requires
        b.len() >= 36,
        le_u16(b, 1) <= b.len(),
    ensures
        decode_imu(b + extra) == decode_imu(b),
{
    let s = b + extra;
    assert(forall|k: int| 0 <= k < b.len() ==> s[k] == b[k]);
    assert(le_u16(s, 1) == le_u16(b, 1));
    assert(le_u16(s, 5) == le_u16(b, 5));
    assert(s[10] == b[10]);
    assert(s.subrange(28, 36) =~= b.subrange(28, 36));
    if ethernet_length_ok(b) && b[10] == 0 {
        let n = imu_sample_count(b);
        let len = le_u16(b, 1);
        assert forall|i: int| 0 <= i < n implies imu_sample_at(s, i) == imu_sample_at(b, i) by {
            assert(36 + 24 * i + 24 <= len) by (nonlinear_arith)
                requires
                    0 <= i < n,
                    n <= (len - 36) / 24,
                    len >= 36,
            ;
        }
        assert(Seq::new(n as nat, |i: int| imu_sample_at(s, i)) =~= Seq::new(
            n as nat,
            |i: int| imu_sample_at(b, i),
        ));
    }
}

/// The `i`-th sample in a payload on its own.
pub open spec fn payload_sample(payload: Seq<u8>, i: int) -> ImuSample {
    let off = 24 * i;
    ImuSample {
        gyro_x: le_u32(payload, off) as u32,
        gyro_y: le_u32(payload, off + 4) as u32,
        gyro_z: le_u32(payload, off + 8) as u32,
        acc_x: le_u32(payload, off + 12) as u32,
        acc_y: le_u32(payload, off + 16) as u32,
        acc_z: le_u32(payload, off + 20) as u32,
    }
}

/// A packet written as header `h` followed by `payload` (with `h.length` counting
/// both) decodes, when `h.data_type` is 0, to the header's timestamp and the first
/// `min(h.dot_num, payload.len() / 24)` samples of the payload; to nothing otherwise
/// or when no sample is present.
pub proof fn lemma_imu_of_written_packet(h: LivoxLidarEthernetPacket, payload: Seq<u8>)
    requires
        h.length as int == 36 + payload.len(),
    ensures
        ({
            let fit = payload.len() as int / 24;
            let n = if h.data_type != 0 {
                0
            } else if (h.dot_num as int) <= fit {
                h.dot_num as int
            } else {
                fit
            };
            decode_imu(ethernet_header_bytes(h) + payload) == if n == 0 {
                None
            } else {
                Some(
                    ImuView {
                        samples: Seq::new(n as nat, |i: int| payload_sample(payload, i)),
                        timestamp: h.timestamp@,
                    },
                )
            }
        }),
{
    let s = ethernet_header_bytes(h) + payload;
    lemma_ethernet_header_roundtrip(h, payload);
    assert(ethernet_header_bytes(h).len() == 36);
    assert(forall|k: int| 0 <= k < payload.len() ==> s[36 + k] == payload[k]);
    if h.data_type == 0 {
        let n = imu_sample_count(s);
        let len = le_u16(s, 1);
        assert forall|i: int| 0 <= i < n implies imu_sample_at(s, i) == payload_sample(payload, i) by {
            assert(24 * i + 24 <= len - 36) by (nonlinear_arith)
                requires
                    0 <= i < n,
                    n <= (len - 36) / 24,
                    len >= 36,
            ;
        }
        assert(Seq::new(n as nat, |i: int| imu_sample_at(s, i)) =~= Seq::new(
            n as nat,
            |i: int| payload_sample(payload, i),
        ));
    }
}

/// What decoding an IMU packet gives, by byte position. With `len` the header's
/// `length` (bytes 1..3) and `dot_num` bytes 5..7, the packet decodes exactly when
/// the header is complete, `36 <= len <= b.len()`, the data type byte 10 is 0, and
/// `n = min(dot_num, (len - 36) / 24)` is positive. Then it holds `n` samples, the
/// `i`-th read at `36 + 24 * i` as six little-endian 32-bit words (gyro x, y, z,
/// then acceleration x, y, z), and the timestamp is bytes 28..36.
pub proof fn lemma_decode_imu_layout(b: Seq<u8>)
    ensures
        ({
            let len = b[1] as int + 256 * b[2] as int;
            let dot_num = b[5] as int + 256 * b[6] as int;
            let fit = (len - 36) / 24;
            let n = if dot_num <= fit {
                dot_num
            } else {
                fit
            };
            &&& decode_imu(b) is Some <==> (b.len() >= 36 && 36 <= len <= b.len() && b[10] == 0
                && n > 0)
            &&& decode_imu(b) matches Some(v) ==> {
                &&& v.timestamp == b.subrange(28, 36)
                &&& v.samples.len() == n
                &&& forall|i: int|
                    0 <= i < n ==> {
                        let s = #[trigger] v.samples[i];
                        let off = 36 + 24 * i;
                        &&& s.gyro_x as int == le_u32(b, off)
                        &&& s.gyro_y as int == le_u32(b, off + 4)
                        &&& s.gyro_z as int == le_u32(b, off + 8)
                        &&& s.acc_x as int == le_u32(b, off + 12)
                        &&& s.acc_y as int == le_u32(b, off + 16)
                        &&& s.acc_z as int == le_u32(b, off + 20)
                    }
            }
        }),
{
    lemma_little_endian_fields(b, 1);
    lemma_little_endian_fields(b, 5);
    if let Some(v) = decode_imu(b) {
        let n = imu_sample_count(b);
        assert forall|i: int| 0 <= i < n implies {
            let s = #[trigger] v.samples[i];
            let off = 36 + 24 * i;
            &&& s.gyro_x as int == le_u32(b, off)
            &&& s.gyro_y as int == le_u32(b, off + 4)
            &&& s.gyro_z as int == le_u32(b, off + 8)
            &&& s.acc_x as int == le_u32(b, off + 12)
            &&& s.acc_y as int == le_u32(b, off + 16)
            &&& s.acc_z as int == le_u32(b, off + 20)
        } by {
            let off = 36 + 24 * i;
            lemma_little_endian_fields(b, off);
            lemma_little_endian_fields(b, off + 4);
            lemma_little_endian_fields(b, off + 8);
            lemma_little_endian_fields(b, off + 12);
            lemma_little_endian_fields(b, off + 16);
            lemma_little_endian_fields(b, off + 20);
            assert(v.samples[i] == imu_sample_at(b, i));
        }
    }
}

fn read_sample(b: &[u8], off: usize) -> (r: ImuSample)
    requires
        off >= 36,
        off + 24 <= b@.len(),
        (off - 36) % 24 == 0,
    ensures
        r == imu_sample_at(b@, (off - 36) / 24),
{
    let _len = b.len();
    ImuSample {
        gyro_x: read_u32(b, off),
        gyro_y: read_u32(b, off + 4),
        gyro_z: read_u32(b, off + 8),
        acc_x: read_u32(b, off + 12),
        acc_y: read_u32(b, off + 16),
        acc_z: read_u32(b, off + 20),
    }
}

/// Decode an IMU packet into owned samples.
///
/// `packet` holds the bytes the SDK handed over, starting at the header. Returns
/// `None` if the header is incomplete, its `length` is shorter than the header or
/// longer than `packet`, the data type is not IMU (0), or no whole sample is present.
pub fn decode_packet(packet: &[u8]) -> (r: Option<ImuPacket>)
    ensures
        match r {
            Some(p) => decode_imu(packet@) == Some(p@),
            None => decode_imu(packet@) is None,
        },
        r matches Some(p) ==> p.samples@.len() > 0,
{
    let hdr = match LivoxLidarEthernetPacket::from_bytes(packet) {
        Some(h) => h,
        None => return None,
    };
    let total_len = hdr.length as usize;
    if total_len < ETHERNET_HEADER_BYTES || total_len > packet.len() {
        return None;
    }
    let payload_len = total_len - ETHERNET_HEADER_BYTES;
    if hdr.data_type != 0 {
        return None;
    }
    let dot_num = hdr.dot_num as usize;
    let sample_size: usize = 24;
    let max_count = payload_len / sample_size;
    let count = if dot_num < max_count {
        dot_num
    } else {
        max_count
    };
    if count == 0 {
        return None;
    }
    let mut samples: Vec<ImuSample> = Vec::new();
    let mut i: usize = 0;
    while i < count
        invariant
            is_ethernet_header_of(hdr, packet@),
            sample_size == 24,
            count == imu_sample_count(packet@),
            count <= payload_len / 24,
            payload_len + 36 <= packet@.len(),
            i <= count,
            samples@.len() == i,
            forall|j: int| 0 <= j < i ==> samples@[j] == imu_sample_at(packet@, j),
        decreases count - i,
    {
        assert(i * 24 + 24 <= payload_len) by (nonlinear_arith)
            requires
                i < count,
                count <= payload_len / 24,
        ;
        let off = ETHERNET_HEADER_BYTES + i * sample_size;
        assert((off - 36) / 24 == i);
        let s = read_sample(packet, off);
        samples.push(s);
        i = i + 1;
    }
    let r = ImuPacket { samples, timestamp: hdr.timestamp };
    assert(r@.samples =~= Seq::new(imu_sample_count(packet@) as nat, |j: int| imu_sample_at(packet@, j)));
    Some(r)
}

} // verus!
