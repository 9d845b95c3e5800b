use carvi_livox_sdk2::cmd;
use carvi_livox_sdk2::imu;
use carvi_livox_sdk2::pointcloud;
use carvi_livox_sdk2::pointcloud::PointDataType;
use carvi_livox_sdk2::sys;

fn header_bytes_ethernet() -> usize {
    sys::ETHERNET_HEADER_BYTES
}

fn header_bytes_cmd() -> usize {
    sys::CMD_HEADER_BYTES
}

fn low_point_bytes(x: i16, y: i16, z: i16, reflectivity: u8, tag: u8) -> Vec<u8> {
    let mut v = Vec::new();
    v.extend_from_slice(&x.to_le_bytes());
    v.extend_from_slice(&y.to_le_bytes());
    v.extend_from_slice(&z.to_le_bytes());
    v.push(reflectivity);
    v.push(tag);
    v
}

fn high_point_bytes(x: i32, y: i32, z: i32, reflectivity: u8, tag: u8) -> Vec<u8> {
    let mut v = Vec::new();
    v.extend_from_slice(&x.to_le_bytes());
    v.extend_from_slice(&y.to_le_bytes());
    v.extend_from_slice(&z.to_le_bytes());
    v.push(reflectivity);
    v.push(tag);
    v
}

fn imu_sample_bytes(values: [f32; 6]) -> Vec<u8> {
    let mut v = Vec::new();
    for x in values {
        v.extend_from_slice(&x.to_le_bytes());
    }
    v
}

fn ethernet_header(length: u16, dot_num: u16, data_type: u8, timestamp: [u8; 8]) -> sys::LivoxLidarEthernetPacket {
    sys::LivoxLidarEthernetPacket {
        version: 0,
        length,
        time_interval: 0,
        dot_num,
        udp_cnt: 0,
        frame_cnt: 0,
        data_type,
        time_type: 0,
        rsvd: [0u8; 12],
        crc32: 0,
        timestamp,
    }
}

fn packet(header: &sys::LivoxLidarEthernetPacket, payload: &[u8]) -> Vec<u8> {
    let mut buf = header.to_bytes();
    buf.extend_from_slice(payload);
    buf
}

#[test]
fn decode_cartesian_low_packet() {
    let mut payload = Vec::new();
    payload.extend(low_point_bytes(100, -50, 25, 7, 1));
    payload.extend(low_point_bytes(-200, 0, 300, 9, 2));

    let payload_len = payload.len();
    let hdr = header_bytes_ethernet();

    let header = sys::LivoxLidarEthernetPacket {
        version: 0,
        length: (hdr + payload_len) as u16,
        time_interval: 0,
        dot_num: 2,
        udp_cnt: 0,
        frame_cnt: 0,
        data_type: 0x02, // CartesianLow
        time_type: 0,
        rsvd: [0u8; 12],
        crc32: 0,
        timestamp: [1, 2, 3, 4, 5, 6, 7, 8],
    };

    let mut buf = header.to_bytes();
    assert_eq!(buf.len(), hdr);
    buf.extend_from_slice(&payload);

    let decoded = pointcloud::decode_packet(&buf).expect("expected some points");

    assert_eq!(decoded.points.len(), 2);
    assert_eq!(decoded.timestamp, [1, 2, 3, 4, 5, 6, 7, 8]);

    let p0 = decoded.points[0];
    assert!((p0.x as f32 / 1000.0 - 1.0).abs() < 1e-6);
    assert!((p0.y as f32 / 1000.0 - (-0.5)).abs() < 1e-6);
    assert!((p0.z as f32 / 1000.0 - 0.25).abs() < 1e-6);
    assert_eq!(p0.reflectivity, 7);
    assert_eq!(p0.tag, 1);
}

#[test]
fn decode_imu_packet() {
    let payload = imu_sample_bytes([1.0, 2.0, 3.0, 4.0, 5.0, 6.0]);

    let payload_len = payload.len();
    let hdr = header_bytes_ethernet();

    let header = sys::LivoxLidarEthernetPacket {
        version: 0,
        length: (hdr + payload_len) as u16,
        time_interval: 0,
        dot_num: 1,
        udp_cnt: 0,
        frame_cnt: 0,
        data_type: 0x00, // IMU
        time_type: 0,
        rsvd: [0u8; 12],
        crc32: 0,
        timestamp: [8, 7, 6, 5, 4, 3, 2, 1],
    };

    let buf = packet(&header, &payload);

    let decoded = imu::decode_packet(&buf).expect("expected imu samples");

    assert_eq!(decoded.samples.len(), 1);
    assert_eq!(decoded.timestamp, [8, 7, 6, 5, 4, 3, 2, 1]);
    let s = decoded.samples[0];
    assert_eq!(f32::from_bits(s.gyro_x), 1.0);
    assert_eq!(f32::from_bits(s.gyro_y), 2.0);
    assert_eq!(f32::from_bits(s.gyro_z), 3.0);
    assert_eq!(f32::from_bits(s.acc_x), 4.0);
    assert_eq!(f32::from_bits(s.acc_y), 5.0);
    assert_eq!(f32::from_bits(s.acc_z), 6.0);
}

#[test]
fn decode_cmd_packet() {
    let payload: [u8; 4] = [10, 20, 30, 40];

    let hdr = header_bytes_cmd();
    let total_len = hdr + payload.len();

    let header = sys::LivoxLidarCmdPacket {
        sof: 0xAA,
        version: 1,
        length: total_len as u16,
        seq_num: 42,
        cmd_id: 0x1234,
        cmd_type: 2,
        sender_type: 3,
        rsvd: [0; 6],
        crc16_h: 0,
        crc32_d: 0,
    };

    let mut buf = header.to_bytes();
    assert_eq!(buf.len(), hdr);
    buf.extend_from_slice(&payload);

    let decoded = cmd::decode_packet(99, &buf).expect("expected cmd packet");

    assert_eq!(decoded.handle, 99);
    assert_eq!(decoded.version, 1);
    assert_eq!(decoded.seq_num, 42);
    assert_eq!(decoded.cmd_id, 0x1234);
    assert_eq!(decoded.cmd_type, 2);
    assert_eq!(decoded.sender_type, 3);
    assert_eq!(decoded.payload, payload);
}

#[test]
fn decode_cartesian_high_packet_in_millimetres() {
    let mut payload = Vec::new();
    payload.extend(high_point_bytes(1234, -5678, 2_000_000_000, 200, 3));
    payload.extend(high_point_bytes(-1, 0, i32::MIN, 0, 255));
    let header = ethernet_header((36 + payload.len()) as u16, 2, 0x01, [9; 8]);
    let buf = packet(&header, &payload);
    let decoded = pointcloud::decode_packet(&buf).expect("points");
    assert_eq!(decoded.data_type, PointDataType::CartesianHigh);
    assert_eq!(decoded.points.len(), 2);
    assert_eq!(decoded.points[0], pointcloud::Point { x: 1234, y: -5678, z: 2_000_000_000, reflectivity: 200, tag: 3 });
    assert_eq!(decoded.points[1], pointcloud::Point { x: -1, y: 0, z: i32::MIN, reflectivity: 0, tag: 255 });
    assert_eq!(decoded.timestamp, [9; 8]);
}

#[test]
fn low_points_are_scaled_to_millimetres() {
    let payload = low_point_bytes(i16::MIN, i16::MAX, -1, 1, 2);
    let header = ethernet_header(44, 1, 0x02, [0; 8]);
    let decoded = pointcloud::decode_packet(&packet(&header, &payload)).expect("points");
    assert_eq!(decoded.data_type, PointDataType::CartesianLow);
    assert_eq!(decoded.points[0], pointcloud::Point { x: -327680, y: 327670, z: -10, reflectivity: 1, tag: 2 });
}

#[test]
fn point_count_is_capped_by_payload() {
    // dot_num claims 5 points, but only 2 whole low points (and a fragment) follow.
    let mut payload = Vec::new();
    payload.extend(low_point_bytes(1, 2, 3, 4, 5));
    payload.extend(low_point_bytes(6, 7, 8, 9, 10));
    payload.extend([0xAA, 0xBB, 0xCC]);
    let header = ethernet_header((36 + payload.len()) as u16, 5, 0x02, [0; 8]);
    let decoded = pointcloud::decode_packet(&packet(&header, &payload)).expect("points");
    assert_eq!(decoded.points.len(), 2);
    assert_eq!(decoded.points[1].x, 60);
}

#[test]
fn point_count_is_capped_by_dot_num() {
    let mut payload = Vec::new();
    payload.extend(low_point_bytes(1, 2, 3, 4, 5));
    payload.extend(low_point_bytes(6, 7, 8, 9, 10));
    let header = ethernet_header((36 + payload.len()) as u16, 1, 0x02, [0; 8]);
    let decoded = pointcloud::decode_packet(&packet(&header, &payload)).expect("points");
    assert_eq!(decoded.points.len(), 1);
    assert_eq!(decoded.points[0].x, 10);
}

#[test]
fn pointcloud_rejects_unsupported_types() {
    let payload = low_point_bytes(1, 2, 3, 4, 5);
    for data_type in [0x00u8, 0x03, 0x04, 0xFF] {
        let header = ethernet_header(44, 1, data_type, [0; 8]);
        assert!(pointcloud::decode_packet(&packet(&header, &payload)).is_none());
    }
}

#[test]
fn pointcloud_rejects_empty_and_malformed() {
    let payload = low_point_bytes(1, 2, 3, 4, 5);
    // no points announced
    assert!(pointcloud::decode_packet(&packet(&ethernet_header(44, 0, 0x02, [0; 8]), &payload)).is_none());
    // payload too short for one point
    assert!(pointcloud::decode_packet(&packet(&ethernet_header(43, 1, 0x02, [0; 8]), &payload[..7])).is_none());
    // length shorter than the header
    assert!(pointcloud::decode_packet(&packet(&ethernet_header(35, 1, 0x02, [0; 8]), &payload)).is_none());
    // length longer than the bytes at hand
    assert!(pointcloud::decode_packet(&packet(&ethernet_header(60, 1, 0x02, [0; 8]), &payload)).is_none());
    // header incomplete
    assert!(pointcloud::decode_packet(&[0u8; 35]).is_none());
    assert!(pointcloud::decode_packet(&[]).is_none());
}

#[test]
fn trailing_bytes_after_length_are_ignored() {
    let payload = low_point_bytes(1, 2, 3, 4, 5);
    let buf = packet(&ethernet_header(44, 1, 0x02, [3; 8]), &payload);
    let mut longer = buf.clone();
    longer.extend_from_slice(&[7; 20]);
    let a = pointcloud::decode_packet(&buf).expect("points");
    let b = pointcloud::decode_packet(&longer).expect("points");
    assert_eq!(a.points, b.points);
    assert_eq!(a.timestamp, b.timestamp);
}

#[test]
fn point_data_type_from_byte() {
    assert_eq!(PointDataType::from(0), PointDataType::Imu);
    assert_eq!(PointDataType::from(1), PointDataType::CartesianHigh);
    assert_eq!(PointDataType::from(2), PointDataType::CartesianLow);
    assert_eq!(PointDataType::from(3), PointDataType::Spherical);
    assert_eq!(PointDataType::from(4), PointDataType::Unknown(4));
    assert_eq!(PointDataType::from(0xFF), PointDataType::Unknown(0xFF));
}

#[test]
fn imu_rejects_point_packets_and_empty() {
    let payload = imu_sample_bytes([0.0; 6]);
    assert!(imu::decode_packet(&packet(&ethernet_header(60, 1, 0x01, [0; 8]), &payload)).is_none());
    assert!(imu::decode_packet(&packet(&ethernet_header(60, 0, 0x00, [0; 8]), &payload)).is_none());
    assert!(imu::decode_packet(&packet(&ethernet_header(59, 1, 0x00, [0; 8]), &payload[..23])).is_none());
    assert!(imu::decode_packet(&packet(&ethernet_header(61, 1, 0x00, [0; 8]), &payload)).is_none());
}

#[test]
fn imu_decodes_several_samples_with_cap() {
    let mut payload = imu_sample_bytes([0.5, -0.5, 1.5, -9.81, 0.0, 9.81]);
    payload.extend(imu_sample_bytes([1.0; 6]));
    let buf = packet(&ethernet_header((36 + payload.len()) as u16, 7, 0x00, [4; 8]), &payload);
    let d = imu::decode_packet(&buf).expect("samples");
    assert_eq!(d.samples.len(), 2);
    assert_eq!(f32::from_bits(d.samples[0].acc_x), -9.81);
    assert_eq!(f32::from_bits(d.samples[0].gyro_y), -0.5);
    assert_eq!(f32::from_bits(d.samples[1].acc_z), 1.0);
}

#[test]
fn cmd_packet_edge_cases() {
    let header = sys::LivoxLidarCmdPacket {
        sof: 0xAA,
        version: 2,
        length: 24,
        seq_num: 0xDEADBEEF,
        cmd_id: 0xFFFF,
        cmd_type: 0,
        sender_type: 1,
        rsvd: [1, 2, 3, 4, 5, 6],
        crc16_h: 0x1111,
        crc32_d: 0x22222222,
    };
    let buf = header.to_bytes();
    let d = cmd::decode_packet(7, &buf).expect("empty payload is fine");
    assert_eq!(d.payload.len(), 0);
    assert_eq!(d.seq_num, 0xDEADBEEF);
    assert_eq!(d.cmd_id, 0xFFFF);
    assert!(cmd::decode_packet(7, &buf[..23]).is_none());
    let mut short = header;
    short.length = 23;
    assert!(cmd::decode_packet(7, &short.to_bytes()).is_none());
    let mut long = header;
    long.length = 30;
    assert!(cmd::decode_packet(7, &long.to_bytes()).is_none());
}

#[test]
fn headers_round_trip_through_bytes() {
    let h = sys::LivoxLidarEthernetPacket {
        version: 5,
        length: 0xBEEF,
        time_interval: 0x1234,
        dot_num: 96,
        udp_cnt: 65535,
        frame_cnt: 7,
        data_type: 1,
        time_type: 2,
        rsvd: [9; 12],
        crc32: 0xCAFEBABE,
        timestamp: [1, 2, 3, 4, 5, 6, 7, 8],
    };
    let mut bytes = h.to_bytes();
    assert_eq!(&bytes[1..3], &[0xEF, 0xBE]);
    bytes.push(0x55);
    assert_eq!(sys::LivoxLidarEthernetPacket::from_bytes(&bytes), Some(h));
    assert_eq!(sys::LivoxLidarEthernetPacket::from_bytes(&bytes[..35]), None);

    let c = sys::LivoxLidarCmdPacket {
        sof: 0xAA,
        version: 1,
        length: 300,
        seq_num: 0x01020304,
        cmd_id: 0x0506,
        cmd_type: 7,
        sender_type: 8,
        rsvd: [0; 6],
        crc16_h: 0x0A0B,
        crc32_d: 0x0C0D0E0F,
    };
    let cb = c.to_bytes();
    assert_eq!(&cb[4..8], &[4, 3, 2, 1]);
    assert_eq!(sys::LivoxLidarCmdPacket::from_bytes(&cb), Some(c));
}

#[test]
fn imu_and_cmd_ignore_trailing_bytes() {
    let payload = imu_sample_bytes([1.0, 2.0, 3.0, 4.0, 5.0, 6.0]);
    let buf = packet(&ethernet_header(60, 1, 0x00, [1; 8]), &payload);
    let mut longer = buf.clone();
    longer.extend_from_slice(&imu_sample_bytes([7.0; 6]));
    let a = imu::decode_packet(&buf).expect("samples");
    let b = imu::decode_packet(&longer).expect("samples");
    assert_eq!(a.samples, b.samples);
    assert_eq!(a.timestamp, b.timestamp);

    let header = sys::LivoxLidarCmdPacket {
        sof: 0xAA,
        version: 1,
        length: 26,
        seq_num: 1,
        cmd_id: 2,
        cmd_type: 0,
        sender_type: 0,
        rsvd: [0; 6],
        crc16_h: 0,
        crc32_d: 0,
    };
    let mut cbuf = header.to_bytes();
    cbuf.extend_from_slice(&[5, 6, 7, 8, 9]);
    let d = cmd::decode_packet(1, &cbuf).expect("cmd");
    assert_eq!(d.payload, vec![5, 6]);
}
