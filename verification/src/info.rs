//! Device info messages and C-string fields of SDK records.

use vstd::prelude::*;
use vstd::slice::slice_subrange;
use vstd::utf8::{decode_utf8, valid_utf8};
use crate::sys::LivoxLidarInfo;

verus! {

/// The bytes of `s` before its first NUL (all of `s` when it holds none).
pub open spec fn before_nul(s: Seq<u8>) -> Seq<u8>
    decreases s.len(),
{
    if s.len() == 0 {
        s
    } else if s[0] == 0 {
        Seq::<u8>::empty()
    } else {
        seq![s[0]] + before_nul(s.drop_first())
    }
}

/// Text that `String::from_utf8_lossy` makes of `bytes`.
pub uninterp spec fn utf8_lossy_text(bytes: Seq<u8>) -> Seq<char>;

/// Calls `String::from_utf8_lossy`; its documentation gives that valid UTF-8 comes
/// back as the text it encodes. What invalid sequences become (U+FFFD replacements)
/// is named, not stated.
#[verifier::external_body]
fn from_utf8_lossy(bytes: &[u8]) -> (s: String)
    ensures
        s@ == utf8_lossy_text(bytes@),
        valid_utf8(bytes@) ==> s@ == decode_utf8(bytes@),
{
    String::from_utf8_lossy(bytes).into_owned()
}

/// `before_nul(s)` is the first `i` bytes when `i` marks the first NUL, or the end.
proof fn lemma_before_nul_take(s: Seq<u8>, i: int)
    requires
        0 <= i <= s.len(),
        forall|j: int| 0 <= j < i ==> s[j] != 0,
        i == s.len() || s[i] == 0,
    ensures
        before_nul(s) == s.take(i),
    decreases s.len(),
{
    if s.len() == 0 {
        assert(s.take(i) =~= s);
    } else if s[0] == 0 {
        assert(i == 0);
        assert(s.take(i) =~= Seq::<u8>::empty());
    } else {
        assert(i > 0);
        let t = s.drop_first();
        assert forall|j: int| 0 <= j < i - 1 implies t[j] != 0 by {
            assert(t[j] == s[j + 1]);
        }
        if i < s.len() {
            assert(t[i - 1] == s[i]);
        }
        lemma_before_nul_take(t, i - 1);
        assert(seq![s[0]] + t.take(i - 1) =~= s.take(i));
    }
}

/// `before_nul(s)` is the longest prefix of `s` holding no NUL: a prefix of `s`,
/// free of zero bytes, and followed in `s` by a NUL or by nothing.
pub proof fn lemma_before_nul_is_text_before_first_nul(s: Seq<u8>)
    ensures
        before_nul(s).len() <= s.len(),
        before_nul(s) == s.take(before_nul(s).len() as int),
        forall|i: int| 0 <= i < before_nul(s).len() ==> before_nul(s)[i] != 0,
        before_nul(s).len() == s.len() || s[before_nul(s).len() as int] == 0,
    decreases s.len(),
{
    if s.len() > 0 && s[0] != 0 {
        let t = s.drop_first();
        lemma_before_nul_is_text_before_first_nul(t);
        let p = before_nul(t);
        assert(before_nul(s) == seq![s[0]] + p);
        assert(seq![s[0]] + p =~= s.take(p.len() as int + 1));
        if p.len() < t.len() {
            assert(s[p.len() as int + 1] == t[p.len() as int]);
        }
    } else if s.len() > 0 {
        assert(s.take(0) =~= Seq::<u8>::empty());
    } else {
        assert(s.take(0) =~= s);
    }
}

/// A C string ends at its first NUL: whatever follows it is never read.
pub proof fn lemma_before_nul_stops_at_nul(a: Seq<u8>, b: Seq<u8>)
    ensures
        before_nul(a + seq![0u8] + b) == before_nul(a),
    decreases a.len(),
{
    let s = a + seq![0u8] + b;
    if a.len() == 0 {
        assert(s[0] == 0);
        assert(before_nul(a) == a);
        assert(a =~= Seq::<u8>::empty());
    } else {
        assert(s[0] == a[0]);
        if a[0] == 0 {
        } else {
            assert(s.drop_first() =~= a.drop_first() + seq![0u8] + b);
            lemma_before_nul_stops_at_nul(a.drop_first(), b);
        }
    }
}

/// Converts a NUL-terminated (or NUL-padded) C char array into an owned string:
/// the bytes before the first NUL, decoded as UTF-8 with invalid sequences replaced.
pub fn c_char_array_to_string(arr: &[u8]) -> (r: String)
    ensures
        r@ == utf8_lossy_text(before_nul(arr@)),
        valid_utf8(before_nul(arr@)) ==> r@ == decode_utf8(before_nul(arr@)),
{
    let mut i: usize = 0;
    while i < arr.len() && arr[i] != 0
        invariant
            i <= arr@.len(),
            forall|j: int| 0 <= j < i ==> arr@[j] != 0,
        decreases arr@.len() - i,
    {
        i = i + 1;
    }
    proof {
        lemma_before_nul_take(arr@, i as int);
    }
    let prefix = slice_subrange(arr, 0, i);
    assert(prefix@ == arr@.take(i as int));
    from_utf8_lossy(prefix)
}

/// A status/info message emitted by the SDK.
#[derive(Debug, Clone)]
pub struct InfoMessage {
    pub handle: u32,
    pub dev_type: u8,
    pub info: String,
}

impl InfoMessage {
    /// The message for device `handle` whose C-string text has the bytes `text`.
    pub fn from_c_text(handle: u32, dev_type: u8, text: &[u8]) -> (r: InfoMessage)
        ensures
            r.handle == handle,
            r.dev_type == dev_type,
            r.info@ == utf8_lossy_text(before_nul(text@)),
    {
        InfoMessage { handle, dev_type, info: c_char_array_to_string(text) }
    }
}

/// Device info change notification.
#[derive(Debug, Clone)]
pub struct InfoChange {
    pub handle: u32,
    pub dev_type: u8,
    pub sn: String,
    pub lidar_ip: String,
}

impl InfoChange {
    /// The notification for device `handle` carrying the SDK record `info`.
    pub fn from_info(handle: u32, info: &LivoxLidarInfo) -> (r: InfoChange)
        ensures
            r.handle == handle,
            r.dev_type == info.dev_type,
            r.sn@ == utf8_lossy_text(before_nul(info.sn@)),
            r.lidar_ip@ == utf8_lossy_text(before_nul(info.lidar_ip@)),
    {
        InfoChange {
            handle,
            dev_type: info.dev_type,
            sn: c_char_array_to_string(info.sn.as_slice()),
            lidar_ip: c_char_array_to_string(info.lidar_ip.as_slice()),
        }
    }
}

} // verus!
