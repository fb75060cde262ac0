//! Decoding of a beacon advertisement frame: a fixed four-byte signature
//! followed by a 16-byte identity, big-endian major and minor numbers and a
//! signed calibrated power byte.

use vstd::prelude::*;

use crate::text::{hex_char, hex_of, push_char};

verus! {

/// Number of bytes that must follow the signature: identity, major, minor
/// and power.
pub const FRAME_BODY_LEN: usize = 21;

/// A decoded advertisement.
#[derive(Debug)]
pub struct IBeaconData {
    pub uuid: String,
    pub major: u16,
    pub minor: u16,
    pub power: i8,
}

/// What a decoded advertisement holds, as mathematical values.
pub struct Frame {
    pub uuid: Seq<char>,
    pub major: u16,
    pub minor: u16,
    pub power: i8,
}

impl View for IBeaconData {
    type V = Frame;

    open spec fn view(&self) -> Frame {
        Frame { uuid: self.uuid@, major: self.major, minor: self.minor, power: self.power }
    }
}

/// The four signature bytes start at offset `i` of `p`.
pub open spec fn signature_at(p: Seq<u8>, i: int) -> bool {
    &&& 0 <= i
    &&& i + 4 <= p.len()
    &&& p[i] == 0x4c
    &&& p[i + 1] == 0x00
    &&& p[i + 2] == 0x02
    &&& p[i + 3] == 0x15
}

/// The first offset at or after `k` where the signature starts, if any.
pub open spec fn signature_from(p: Seq<u8>, k: int) -> Option<int>
    decreases p.len() - k,
{
    if k < 0 || k + 4 > p.len() {
        None
    } else if signature_at(p, k) {
        Some(k)
    } else {
        signature_from(p, k + 1)
    }
}

/// A big-endian 16-bit number.
pub open spec fn be16(hi: u8, lo: u8) -> u16 {
    (hi * 256 + lo) as u16
}

/// The canonical 8-4-4-4-12 hyphenated rendering of a 16-byte identity.
pub open spec fn uuid_text(b: Seq<u8>) -> Seq<char> {
    hex_of(b.subrange(0, 4)) + seq!['-'] + hex_of(b.subrange(4, 6)) + seq!['-'] + hex_of(
        b.subrange(6, 8),
    ) + seq!['-'] + hex_of(b.subrange(8, 10)) + seq!['-'] + hex_of(b.subrange(10, 16))
}

/// The frame whose body starts at offset `s` of `p`.
pub open spec fn frame_at(p: Seq<u8>, s: int) -> Frame {
    Frame {
        uuid: uuid_text(p.subrange(s, s + 16)),
        major: be16(p[s + 16], p[s + 17]),
        minor: be16(p[s + 18], p[s + 19]),
        power: p[s + 20] as i8,
    }
}

/// What a payload decodes to: the frame after the first signature, when at
/// least a whole frame body follows it.
pub open spec fn decoded(p: Seq<u8>) -> Option<Frame> {
    match signature_from(p, 0) {
        Some(i) => if i + 4 + 21 <= p.len() {
            Some(frame_at(p, i + 4))
        } else {
            None
        },
        None => None,
    }
}

/// Appends the hexadecimal digits of `b[from..to]` to `s`.
fn push_hex(s: &mut String, b: &[u8; 16], from: usize, to: usize)
    requires
        from <= to <= 16,
    ensures
        final(s)@ == old(s)@ + hex_of(b@.subrange(from as int, to as int)),
{
    let mut k: usize = from;
    while k < to
        invariant
            from <= k <= to <= 16,
            b@.len() == 16,
            s@ == old(s)@ + hex_of(b@.subrange(from as int, k as int)),
        decreases to - k,
    {
        let byte = b[k];
        push_char(s, hex_char(byte / 16));
        push_char(s, hex_char(byte % 16));
        assert(b@.subrange(from as int, k + 1).drop_last() == b@.subrange(from as int, k as int));
        k = k + 1;
    }
}

/// Renders a 16-byte identity as its canonical hyphenated hex string.
pub fn format_uuid(uuid: &[u8; 16]) -> (r: String)
    ensures
        r@ == uuid_text(uuid@),
{
    let mut s = String::new();
    push_hex(&mut s, uuid, 0, 4);
    push_char(&mut s, '-');
    push_hex(&mut s, uuid, 4, 6);
    push_char(&mut s, '-');
    push_hex(&mut s, uuid, 6, 8);
    push_char(&mut s, '-');
    push_hex(&mut s, uuid, 8, 10);
    push_char(&mut s, '-');
    push_hex(&mut s, uuid, 10, 16);
    s
}

/// Decodes an advertisement payload. Returns `None` when the signature is
/// absent or fewer than 21 bytes follow its first occurrence.
pub fn from_bytes(payload: &[u8]) -> (r: Option<IBeaconData>)
    ensures
        r matches Some(d) ==> decoded(payload@) == Some(d@),
        r is None ==> decoded(payload@) is None,
{
    let len = payload.len();
    if len < 4 {
        return None;
    }
    let mut i: usize = 0;
    while i <= len - 4
        invariant
            len == payload@.len(),
            4 <= len,
            i <= len - 3,
            signature_from(payload@, 0) == signature_from(payload@, i as int),
        decreases len - i,
    {
        if payload[i] == 0x4c && payload[i + 1] == 0x00 && payload[i + 2] == 0x02 && payload[i + 3]
            == 0x15 {
            let start = i + 4;
            if len - start < FRAME_BODY_LEN {
                return None;
            }
            let mut uuid: [u8; 16] = [0u8; 16];
            let mut k: usize = 0;
            while k < 16
                invariant
                    k <= 16,
                    start + 21 <= len == payload@.len(),
                    uuid@.len() == 16,
                    forall|j: int| 0 <= j < k ==> uuid@[j] == payload@[start + j],
                decreases 16 - k,
            {
                uuid[k] = payload[start + k];
                k = k + 1;
            }
            assert(uuid@ == payload@.subrange(start as int, start + 16));
            let major = (payload[start + 16] as u16) * 256 + payload[start + 17] as u16;
            let minor = (payload[start + 18] as u16) * 256 + payload[start + 19] as u16;
            let power = payload[start + 20] as i8;
            return Some(IBeaconData { uuid: format_uuid(&uuid), major, minor, power });
        }
        i = i + 1;
    }
    None
}

/// The advertisement that carries a 16-byte identity, major, minor and power:
/// the signature, then the body in the layout that `from_bytes` reads.
pub open spec fn encoded(uuid: Seq<u8>, major: u16, minor: u16, power: i8) -> Seq<u8> {
    seq![0x4cu8, 0x00u8, 0x02u8, 0x15u8] + uuid + seq![
        (major / 256) as u8,
        (major % 256) as u8,
        (minor / 256) as u8,
        (minor % 256) as u8,
        power as u8,
    ]
}

/// Encoding an identity and power into the frame layout and decoding the
/// result gives back the identity's canonical text, the major and minor
/// numbers and the power byte exactly.
pub proof fn lemma_frame_round_trip(uuid: Seq<u8>, major: u16, minor: u16, power: i8)
    requires
        uuid.len() == 16,
    ensures
        decoded(encoded(uuid, major, minor, power)) == Some(
            Frame { uuid: uuid_text(uuid), major, minor, power },
        ),
{
    let p = encoded(uuid, major, minor, power);
    assert(signature_at(p, 0));
    assert(p.subrange(4, 20) == uuid);
    assert(be16(p[20], p[21]) == major);
    assert(be16(p[22], p[23]) == minor);
    assert((power as u8) as i8 == power) by (bit_vector);
}

} // verus!
