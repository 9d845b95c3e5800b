//! Decoding of Livox-SDK2 point cloud packets.
//!
//! A packet is a 36-byte header (`sys::LivoxLidarEthernetPacket`) followed by
//! `length - 36` payload bytes holding packed points. Coordinates are kept as
//! integers in millimetres: Cartesian-high points carry millimetres on the wire,
//! Cartesian-low points carry centimetres and are scaled by ten.

use vstd::prelude::*;
use vstd::std_specs::convert::FromSpecImpl;
use crate::sys::{
    ethernet_header_bytes, ethernet_length_ok, is_ethernet_header_of, lemma_ethernet_header_roundtrip,
    LivoxLidarEthernetPacket, ETHERNET_HEADER_BYTES,
};
use crate::wire::{le_i16, le_i32, le_u16, lemma_little_endian_fields, read_i16, read_i32};

verus! {

/// Point data type in a `LivoxLidarEthernetPacket`.
#[derive(Debug, Clone, Copy, PartialEq, Eq, Structural)]
pub enum PointDataType {
    Imu,
    CartesianHigh,
    CartesianLow,
    Spherical,
    Unknown(u8),
}

/// The data type named by the raw header byte `v`.
pub open spec fn point_data_type_of(v: u8) -> PointDataType {
    if v == 0 {
        PointDataType::Imu
    } else if v == 1 {
        PointDataType::CartesianHigh
    } else if v == 2 {
        PointDataType::CartesianLow
    } else if v == 3 {
        PointDataType::Spherical
    } else {
        PointDataType::Unknown(v)
    }
}

/// The raw header byte that names the data type `t`.
pub open spec fn point_data_type_byte(t: PointDataType) -> u8 {
    match t {
        PointDataType::Imu => 0,
        PointDataType::CartesianHigh => 1,
        PointDataType::CartesianLow => 2,
        PointDataType::Spherical => 3,
        PointDataType::Unknown(v) => v,
    }
}

impl From<u8> for PointDataType {
    fn from(v: u8) -> (r: Self) {
        match v {
            0x00 => PointDataType::Imu,
            0x01 => PointDataType::CartesianHigh,
            0x02 => PointDataType::CartesianLow,
            0x03 => PointDataType::Spherical,
            other => PointDataType::Unknown(other),
        }
    }
}

impl FromSpecImpl<u8> for PointDataType {
    open spec fn obeys_from_spec() -> bool {
        true
    }

    open spec fn from_spec(v: u8) -> Self {
        point_data_type_of(v)
    }
}

/// Classifying a header byte loses nothing: the byte can be read back from the type.
pub proof fn lemma_point_data_type_roundtrip(v: u8)
    ensures
        point_data_type_byte(point_data_type_of(v)) == v,
{
}

/// A single point; coordinates in millimetres.
#[derive(Debug, Clone, Copy, PartialEq, Eq, Structural)]
pub struct Point {
    pub x: i32,
    pub y: i32,
    pub z: i32,
    pub reflectivity: u8,
    pub tag: u8,
}

/// A decoded packet of points.
#[derive(Debug, Clone)]
pub struct PointCloudPacket {
    pub data_type: PointDataType,
    /// The points decoded, in wire order.
    pub points: Vec<Point>,
    /// Raw 8-byte timestamp from the SDK packet.
    pub timestamp: [u8; 8],
}

/// The mathematical content of a `PointCloudPacket`.
#[verifier::ext_equal]
pub struct PointCloudView {
    pub data_type: PointDataType,
    pub points: Seq<Point>,
    pub timestamp: Seq<u8>,
}

impl View for PointCloudPacket {
    type V = PointCloudView;

    open spec fn view(&self) -> PointCloudView {
        PointCloudView { data_type: self.data_type, points: self.points@, timestamp: self.timestamp@ }
    }
}

/// Wire size of one point of type `t` (0 for types this crate does not decode).
pub open spec fn point_size(t: PointDataType) -> int {
    match t {
        PointDataType::CartesianHigh => 14,
        PointDataType::CartesianLow => 8,
        _ => 0,
    }
}

/// The Cartesian-high point (millimetre `i32` coordinates) stored at `off`.
pub open spec fn high_point_at(b: Seq<u8>, off: int) -> Point {
    Point {
        x: le_i32(b, off) as i32,
        y: le_i32(b, off + 4) as i32,
        z: le_i32(b, off + 8) as i32,
        reflectivity: b[off + 12],
        tag: b[off + 13],
    }
}

/// The Cartesian-low point (centimetre `i16` coordinates) stored at `off`, in millimetres.
pub open spec fn low_point_at(b: Seq<u8>, off: int) -> Point {
    Point {
        x: (10 * le_i16(b, off)) as i32,
        y: (10 * le_i16(b, off + 2)) as i32,
        z: (10 * le_i16(b, off + 4)) as i32,
        reflectivity: b[off + 6],
        tag: b[off + 7],
    }
}

/// The `i`-th point of the payload of packet `b`, for data type `t`.
pub open spec fn point_at(t: PointDataType, b: Seq<u8>, i: int) -> Point {
    if t == PointDataType::CartesianHigh {
        high_point_at(b, 36 + 14 * i)
    } else {
        low_point_at(b, 36 + 8 * i)
    }
}

/// Number of points decoded from `b`: the header's `dot_num`, capped by how many
/// whole points the payload holds.
pub open spec fn point_count(b: Seq<u8>) -> int {
    let dot_num = le_u16(b, 5);
    let fit = (le_u16(b, 1) - 36) / point_size(point_data_type_of(b[10]));
    if dot_num <= fit {
        dot_num
    } else {
        fit
    }
}

/// What decoding the point cloud packet `b` yields.
pub open spec fn decode_pointcloud(b: Seq<u8>) -> Option<PointCloudView> {
    if !ethernet_length_ok(b) {
        None
    } else {
        let t = point_data_type_of(b[10]);
        if !(t == PointDataType::CartesianHigh || t == PointDataType::CartesianLow) {
            None
        } else if point_count(b) == 0 {
            None
        } else {
            Some(
                PointCloudView {
                    data_type: t,
                    points: Seq::new(point_count(b) as nat, |i: int| point_at(t, b, i)),
                    timestamp: b.subrange(28, 36),
                },
            )
        }
    }
}

/// Decoding reads only the first `length` bytes of a packet: bytes after them
/// never change the result.
pub proof fn lemma_pointcloud_ignores_trailing_bytes(b: Seq<u8>, extra: Seq<u8>)
    requires
        b.len() >= 36,
        le_u16(b, 1) <= b.len(),
    ensures
        decode_pointcloud(b + extra) == decode_pointcloud(b),
{
    let s = b + extra;
    assert(forall|k: int| 0 <= k < b.len() ==> s[k] == b[k]);
    assert(le_u16(s, 1) == le_u16(b, 1));
    assert(le_u16(s, 5) == le_u16(b, 5));
    assert(s[10] == b[10]);
    assert(s.subrange(28, 36) =~= b.subrange(28, 36));
    if ethernet_length_ok(b) {
        let t = point_data_type_of(b[10]);
        if t == PointDataType::CartesianHigh || t == PointDataType::CartesianLow {
            let n = point_count(b);
            let size = point_size(t);
            let len = le_u16(b, 1);
            assert forall|i: int| 0 <= i < n implies point_at(t, s, i) == point_at(t, b, i) by {
                assert(36 + size * i + size <= len) by (nonlinear_arith)
                    requires
                        0 <= i < n,
                        n <= (len - 36) / size,
                        size > 0,
                        len >= 36,
                ;
                if t == PointDataType::CartesianHigh {
                    assert(size == 14);
                } else {
                    assert(size == 8);
                }
            }
            assert(Seq::new(n as nat, |i: int| point_at(t, s, i)) =~= Seq::new(
                n as nat,
                |i: int| point_at(t, b, i),
            ));
        }
    }
}

/// The `i`-th point of type `t` in a payload on its own.
pub open spec fn payload_point(t: PointDataType, payload: Seq<u8>, i: int) -> Point {
    if t == PointDataType::CartesianHigh {
        high_point_at(payload, 14 * i)
    } else {
        low_point_at(payload, 8 * i)
    }
}

/// A packet written as header `h` followed by `payload` (with `h.length` counting
/// both) decodes to the header's data type and timestamp and to the first
/// `min(h.dot_num, payload.len() / size)` points of the payload; it decodes to
/// nothing when the type is not Cartesian or no point is present.
#[verifier::rlimit(40)]
#[verifier::spinoff_prover]
pub proof fn lemma_pointcloud_of_written_packet(h: LivoxLidarEthernetPacket, payload: Seq<u8>)
    requires
        h.length as int == 36 + payload.len(),
    ensures
        ({
            let t = point_data_type_of(h.data_type);
            let n = if t == PointDataType::CartesianHigh || t == PointDataType::CartesianLow {
                let fit = payload.len() as int / point_size(t);
                if (h.dot_num as int) <= fit {
                    h.dot_num as int
                } else {
                    fit
                }
            } else {
                0
            };
            decode_pointcloud(ethernet_header_bytes(h) + payload) == if n == 0 {
                None
            } else {
                Some(
                    PointCloudView {
                        data_type: t,
                        points: Seq::new(n as nat, |i: int| payload_point(t, payload, i)),
                        timestamp: h.timestamp@,
                    },
                )
            }
        }),
{
    let s = ethernet_header_bytes(h) + payload;
    lemma_ethernet_header_roundtrip(h, payload);
    assert(ethernet_header_bytes(h).len() == 36);
    assert(forall|k: int| 0 <= k < payload.len() ==> s[36 + k] == payload[k]);
    let t = point_data_type_of(h.data_type);
    if t == PointDataType::CartesianHigh || t == PointDataType::CartesianLow {
        let n = point_count(s);
        let size = point_size(t);
        let len = le_u16(s, 1);
        assert forall|i: int| 0 <= i < n implies point_at(t, s, i) == payload_point(t, payload, i) by {
            assert(size * i + size <= len - 36) by (nonlinear_arith)
                requires
                    0 <= i < n,
                    n <= (len - 36) / size,
                    size > 0,
                    len >= 36,
            ;
            if t == PointDataType::CartesianHigh {
                assert(size == 14);
                assert(s[36 + 14 * i] == payload[14 * i]);
            } else {
                assert(size == 8);
                assert(s[36 + 8 * i] == payload[8 * i]);
            }
        }
        assert(Seq::new(n as nat, |i: int| point_at(t, s, i)) =~= Seq::new(
            n as nat,
            |i: int| payload_point(t, payload, i),
        ));
    }
}

fn read_high_point(b: &[u8], off: usize) -> (r: Point)
    requires
        off + 14 <= b@.len(),
    ensures
        r == high_point_at(b@, off as int),
{
    let _len = b.len();
    Point {
        x: read_i32(b, off),
        y: read_i32(b, off + 4),
        z: read_i32(b, off + 8),
        reflectivity: b[off + 12],
        tag: b[off + 13],
    }
}

fn read_low_point(b: &[u8], off: usize) -> (r: Point)
    requires
        off + 8 <= b@.len(),
    ensures
        r == low_point_at(b@, off as int),
{
    let _len = b.len();
    let x = read_i16(b, off) as i32;
    let y = read_i16(b, off + 2) as i32;
    let z = read_i16(b, off + 4) as i32;
    Point { x: x * 10, y: y * 10, z: z * 10, reflectivity: b[off + 6], tag: b[off + 7] }
}

/// What decoding a point cloud packet gives, by byte position. With `len` the
/// header's `length` (bytes 1..3), `dot_num` bytes 5..7 and the data type byte 10
/// (1: Cartesian high, 14-byte points in millimetres; 2: Cartesian low, 8-byte
/// points in centimetres), the packet decodes exactly when the header is complete,
/// `36 <= len <= b.len()`, the type is 1 or 2, and `n = min(dot_num, (len - 36) /
/// size)` is positive. Then it holds `n` points, the `i`-th read at `36 + size * i`
/// (x, y, z, then reflectivity and tag), coordinates in millimetres, and the
/// timestamp is bytes 28..36.
pub proof fn lemma_decode_pointcloud_layout(b: Seq<u8>)
    ensures
        ({
            let len = b[1] as int + 256 * b[2] as int;
            let dot_num = b[5] as int + 256 * b[6] as int;
            let size: int = if b[10] == 1 {
                14
            } else {
                8
            };
            let fit = (len - 36) / size;
            let n = if dot_num <= fit {
                dot_num
            } else {
                fit
            };
            &&& decode_pointcloud(b) is Some <==> (b.len() >= 36 && 36 <= len <= b.len() && (b[10]
                == 1 || b[10] == 2) && n > 0)
            &&& decode_pointcloud(b) matches Some(v) ==> {
                &&& v.data_type == (if b[10] == 1 {
                    PointDataType::CartesianHigh
                } else {
                    PointDataType::CartesianLow
                })
                &&& v.timestamp == b.subrange(28, 36)
                &&& v.points.len() == n
                &&& forall|i: int|
                    0 <= i < n ==> {
                        let p = #[trigger] v.points[i];
                        let off = 36 + size * i;
                        if b[10] == 1 {
                            &&& p.x as int == le_i32(b, off)
                            &&& p.y as int == le_i32(b, off + 4)
                            &&& p.z as int == le_i32(b, off + 8)
                            &&& p.reflectivity == b[off + 12]
                            &&& p.tag == b[off + 13]
                        } else {
                            &&& p.x as int == 10 * le_i16(b, off)
                            &&& p.y as int == 10 * le_i16(b, off + 2)
                            &&& p.z as int == 10 * le_i16(b, off + 4)
                            &&& p.reflectivity == b[off + 6]
                            &&& p.tag == b[off + 7]
                        }
                    }
            }
        }),
{
    lemma_little_endian_fields(b, 1);
    lemma_little_endian_fields(b, 5);
    if let Some(v) = decode_pointcloud(b) {
        let t = point_data_type_of(b[10]);
        let n = point_count(b);
        assert forall|i: int| 0 <= i < n implies {
            let p = #[trigger] v.points[i];
            let off = 36 + (if b[10] == 1 { 14int } else { 8int }) * i;
            if b[10] == 1 {
                &&& p.x as int == le_i32(b, off)
                &&& p.y as int == le_i32(b, off + 4)
                &&& p.z as int == le_i32(b, off + 8)
                &&& p.reflectivity == b[off + 12]
                &&& p.tag == b[off + 13]
            } else {
                &&& p.x as int == 10 * le_i16(b, off)
                &&& p.y as int == 10 * le_i16(b, off + 2)
                &&& p.z as int == 10 * le_i16(b, off + 4)
                &&& p.reflectivity == b[off + 6]
                &&& p.tag == b[off + 7]
            }
        } by {
            let off = 36 + (if b[10] == 1 { 14int } else { 8int }) * i;
            lemma_little_endian_fields(b, off);
            lemma_little_endian_fields(b, off + 2);
            lemma_little_endian_fields(b, off + 4);
            lemma_little_endian_fields(b, off + 8);
            assert(v.points[i] == point_at(t, b, i));
        }
    }
}

/// Decode a packet into owned points.
///
/// `packet` holds the bytes the SDK handed over, starting at the header. Returns
/// `None` if the header is incomplete, its `length` is shorter than the header or
/// longer than `packet`, the data type is not Cartesian (IMU, spherical and
/// unknown types are not decoded here), or no whole point is present.
pub fn decode_packet(packet: &[u8]) -> (r: Option<PointCloudPacket>)
    ensures
        match r {
            Some(p) => decode_pointcloud(packet@) == Some(p@),
            None => decode_pointcloud(packet@) is None,
        },
        r matches Some(p) ==> p.points@.len() > 0,
{
    let hdr = match LivoxLidarEthernetPacket::from_bytes(packet) {
        Some(h) => h,
        None => return None,
    };
    let total_len = hdr.length as usize;
    if total_len < ETHERNET_HEADER_BYTES || total_len > packet.len() {
        return None;
    }
    let payload_len = total_len - ETHERNET_HEADER_BYTES;
    let data_type = PointDataType::from(hdr.data_type);
    let size: usize = match data_type {
        PointDataType::CartesianHigh => 14,
        PointDataType::CartesianLow => 8,
        _ => return None,
    };
    let dot_num = hdr.dot_num as usize;
    let max_count = payload_len / size;
    let count = if dot_num < max_count {
        dot_num
    } else {
        max_count
    };
    if count == 0 {
        return None;
    }
    let ghost t = data_type;
    assert(count == point_count(packet@));
    let mut points: Vec<Point> = Vec::new();
    let mut i: usize = 0;
    while i < count
        invariant
            is_ethernet_header_of(hdr, packet@),
            t == point_data_type_of(packet@[10]),
            data_type == t,
            t == PointDataType::CartesianHigh || t == PointDataType::CartesianLow,
            size == point_size(t),
            count == point_count(packet@),
            count <= payload_len / size,
            payload_len + 36 <= packet@.len(),
            i <= count,
            points@.len() == i,
            forall|j: int| 0 <= j < i ==> points@[j] == point_at(t, packet@, j),
        decreases count - i,
    {
        assert(i * size + size <= payload_len) by (nonlinear_arith)
            requires
                i < count,
                count <= payload_len / size,
                size > 0,
        ;
        let off = ETHERNET_HEADER_BYTES + i * size;
        let p = match data_type {
            PointDataType::CartesianHigh => read_high_point(packet, off),
            _ => read_low_point(packet, off),
        };
        points.push(p);
        i = i + 1;
    }
    let r = PointCloudPacket { data_type, points, timestamp: hdr.timestamp };
    assert(r@.points =~= Seq::new(point_count(packet@) as nat, |j: int| point_at(t, packet@, j)));
    Some(r)
}

} // verus!
