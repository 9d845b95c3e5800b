//! Decoding of Livox-SDK2 command packets.
//!
//! A command packet is a 24-byte header (`sys::LivoxLidarCmdPacket`) followed by
//! `length - 24` payload bytes.

use vstd::prelude::*;
use vstd::slice::{slice_subrange, slice_to_vec};
use crate::sys::{cmd_header_bytes, lemma_cmd_header_roundtrip, LivoxLidarCmdPacket, CMD_HEADER_BYTES};
use crate::wire::{le_u16, le_u32, lemma_little_endian_fields};

verus! {

/// A decoded command packet.
#[derive(Debug, Clone)]
pub struct CmdPacket {
    pub handle: u32,
    pub version: u8,
    pub seq_num: u32,
    pub cmd_id: u16,
    pub cmd_type: u8,
    pub sender_type: u8,
    pub payload: Vec<u8>,
}

/// The mathematical content of a `CmdPacket`.
#[verifier::ext_equal]
pub struct CmdView {
    pub handle: u32,
    pub version: u8,
    pub seq_num: u32,
    pub cmd_id: u16,
    pub cmd_type: u8,
    pub sender_type: u8,
    pub payload: Seq<u8>,
}

impl View for CmdPacket {
    type V = CmdView;

    open spec fn view(&self) -> CmdView {
        CmdView {
            handle: self.handle,
            version: self.version,
            seq_num: self.seq_num,
            cmd_id: self.cmd_id,
            cmd_type: self.cmd_type,
            sender_type: self.sender_type,
            payload: self.payload@,
        }
    }
}

/// The header of `b` is present and its `length` covers the header and lies within `b`.
pub open spec fn cmd_length_ok(b: Seq<u8>) -> bool {
    &&& b.len() >= 24
    &&& 24 <= le_u16(b, 2) <= b.len()
}

/// What decoding the command packet `b`, received for device `handle`, yields.
pub open spec fn decode_cmd(handle: u32, b: Seq<u8>) -> Option<CmdView> {
    if !cmd_length_ok(b) {
        None
    } else {
        Some(
            CmdView {
                handle,
                version: b[1],
                seq_num: le_u32(b, 4) as u32,
                cmd_id: le_u16(b, 8) as u16,
                cmd_type: b[10],
                sender_type: b[11],
                payload: b.subrange(24, le_u16(b, 2)),
            },
        )
    }
}

/// Decoding reads only the first `length` bytes of a packet: bytes after them
/// never change the result.
pub proof fn lemma_cmd_ignores_trailing_bytes(handle: u32, b: Seq<u8>, extra: Seq<u8>)
    requires
        b.len() >= 24,
        le_u16(b, 2) <= b.len(),
    ensures
        decode_cmd(handle, b + extra) == decode_cmd(handle, b),
{
    let s = b + extra;
    assert(forall|k: int| 0 <= k < b.len() ==> s[k] == b[k]);
    assert(le_u16(s, 2) == le_u16(b, 2));
    assert(le_u16(s, 8) == le_u16(b, 8));
    assert(le_u32(s, 4) == le_u32(b, 4));
    if cmd_length_ok(b) {
        assert(s.subrange(24, le_u16(b, 2)) =~= b.subrange(24, le_u16(b, 2)));
    }
}

/// A command packet written as header `h` followed by `payload` (with `h.length`
/// counting both) decodes to the header's fields and exactly that payload.
pub proof fn lemma_cmd_of_written_packet(handle: u32, h: LivoxLidarCmdPacket, payload: Seq<u8>)
    requires
        h.length as int == 24 + payload.len(),
    ensures
        decode_cmd(handle, cmd_header_bytes(h) + payload) == Some(
            CmdView {
                handle,
                version: h.version,
                seq_num: h.seq_num,
                cmd_id: h.cmd_id,
                cmd_type: h.cmd_type,
                sender_type: h.sender_type,
                payload,
            },
        ),
{
    let s = cmd_header_bytes(h) + payload;
    lemma_cmd_header_roundtrip(h, payload);
    assert(cmd_header_bytes(h).len() == 24);
    assert(s.subrange(24, 24 + payload.len() as int) =~= payload);
}

/// What decoding a command packet gives, by byte position: present exactly when
/// the header is complete and its `length` (bytes 2..4) covers the header and lies
/// within the bytes; then `version` is byte 1 (byte 0 is the start-of-frame
/// marker), `seq_num` bytes 4..8, `cmd_id` bytes 8..10, `cmd_type` byte 10,
/// `sender_type` byte 11, and the payload the bytes from 24 up to `length`.
pub proof fn lemma_decode_cmd_layout(handle: u32, b: Seq<u8>)
    ensures
        decode_cmd(handle, b) is Some <==> (b.len() >= 24 && 24 <= b[2] as int + 256 * b[3] as int
            <= b.len()),
        decode_cmd(handle, b) matches Some(v) ==> {
            &&& v.handle == handle
            &&& v.version == b[1]
            &&& v.seq_num as int == b[4] as int + 256 * b[5] as int + 65536 * b[6] as int
                + 16777216 * b[7] as int
            &&& v.cmd_id as int == b[8] as int + 256 * b[9] as int
            &&& v.cmd_type == b[10]
            &&& v.sender_type == b[11]
            &&& v.payload == b.subrange(24, b[2] as int + 256 * b[3] as int)
        },
{
    lemma_little_endian_fields(b, 2);
    lemma_little_endian_fields(b, 4);
    lemma_little_endian_fields(b, 8);
}

/// Decode a command packet into an owned structure.
///
/// `packet` holds the bytes the SDK handed over, starting at the header. Returns
/// `None` if the header is incomplete, or its `length` is shorter than the header
/// or longer than `packet`.
pub fn decode_packet(handle: u32, packet: &[u8]) -> (r: Option<CmdPacket>)
    ensures
        match r {
            Some(p) => decode_cmd(handle, packet@) == Some(p@),
            None => decode_cmd(handle, packet@) is None,
        },
{
    let hdr = match LivoxLidarCmdPacket::from_bytes(packet) {
        Some(h) => h,
        None => return None,
    };
    let total_len = hdr.length as usize;
    if total_len < CMD_HEADER_BYTES || total_len > packet.len() {
        return None;
    }
    let payload = slice_to_vec(slice_subrange(packet, CMD_HEADER_BYTES, total_len));
    let r = CmdPacket {
        handle,
        version: hdr.version,
        seq_num: hdr.seq_num,
        cmd_id: hdr.cmd_id,
        cmd_type: hdr.cmd_type,
        sender_type: hdr.sender_type,
        payload,
    };
    Some(r)
}

} // verus!
