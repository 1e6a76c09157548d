//! The framing of HSMS messages (SEMI E37 section 8): the 10-byte message
//! header and the 4-byte length that precedes each message on the wire.
use vstd::prelude::*;
use crate::secs_ii::codec::{byte16, byte32, lemma_u16_bytes, lemma_u32_bytes, u16_of, u32_of};

verus! {

/// The 10 bytes of a message header: session ID (big-endian), header bytes 2
/// and 3, presentation type, session type, system bytes (big-endian).
pub open spec fn header_seq(
    session_id: u16,
    byte_2: u8,
    byte_3: u8,
    presentation_type: u8,
    session_type: u8,
    system: u32,
) -> Seq<u8> {
    seq![
        byte16(session_id, 0),
        byte16(session_id, 1),
        byte_2,
        byte_3,
        presentation_type,
        session_type,
        byte32(system, 0),
        byte32(system, 1),
        byte32(system, 2),
        byte32(system, 3),
    ]
}

/// The layout of a message header, with plain arithmetic: session ID most
/// significant byte first, header bytes 2 and 3, presentation type, session
/// type, then the system bytes most significant byte first.
pub proof fn lemma_header_layout(
    session_id: u16,
    byte_2: u8,
    byte_3: u8,
    presentation_type: u8,
    session_type: u8,
    system: u32,
)
    ensures
        header_seq(session_id, byte_2, byte_3, presentation_type, session_type, system) == seq![
            (session_id / 0x100) as u8,
            (session_id % 0x100) as u8,
            byte_2,
            byte_3,
            presentation_type,
            session_type,
            (system / 0x100_0000) as u8,
            ((system / 0x1_0000) % 0x100) as u8,
            ((system / 0x100) % 0x100) as u8,
            (system % 0x100) as u8,
        ],
{
    let x = session_id;
    let y = system;
    assert(
        (((x >> 8u16) as u8) == ((x / 0x100) as u8))
        && ((x as u8) == ((x % 0x100) as u8))
        && (((y >> 24u32) as u8) == ((y / 0x100_0000) as u8))
        && (((y >> 16u32) as u8) == (((y / 0x1_0000) % 0x100) as u8))
        && (((y >> 8u32) as u8) == (((y / 0x100) % 0x100) as u8))
        && ((y as u8) == ((y % 0x100) as u8))
    ) by (bit_vector);
    assert(header_seq(session_id, byte_2, byte_3, presentation_type, session_type, system) =~= seq![
        (session_id / 0x100) as u8,
        (session_id % 0x100) as u8,
        byte_2,
        byte_3,
        presentation_type,
        session_type,
        (system / 0x100_0000) as u8,
        ((system / 0x1_0000) % 0x100) as u8,
        ((system / 0x100) % 0x100) as u8,
        (system % 0x100) as u8,
    ]);
}

/// The length bytes of a message of fewer than 2^32 bytes: its length, most
/// significant byte first.
pub proof fn lemma_length_layout(len: nat)
    requires
        len < 0x1_0000_0000,
    ensures
        length_seq(len) == seq![
            (len / 0x100_0000) as u8,
            ((len / 0x1_0000) % 0x100) as u8,
            ((len / 0x100) % 0x100) as u8,
            (len % 0x100) as u8,
        ],
{
    let y = (len % 0x1_0000_0000) as u32;
    assert(y == len);
    assert(
        (((y >> 24u32) as u8) == ((y / 0x100_0000) as u8))
        && (((y >> 16u32) as u8) == (((y / 0x1_0000) % 0x100) as u8))
        && (((y >> 8u32) as u8) == (((y / 0x100) % 0x100) as u8))
        && ((y as u8) == ((y % 0x100) as u8))
    ) by (bit_vector);
    assert(length_seq(len) =~= seq![
        (len / 0x100_0000) as u8,
        ((len / 0x1_0000) % 0x100) as u8,
        ((len / 0x100) % 0x100) as u8,
        (len % 0x100) as u8,
    ]);
}

/// The session ID held in the first two bytes of a header.
pub open spec fn session_id_of(b: Seq<u8>) -> u16 {
    u16_of(b[0], b[1])
}

/// The system bytes held in bytes 6 to 9 of a header.
pub open spec fn system_of(b: Seq<u8>) -> u32 {
    u32_of(b[6], b[7], b[8], b[9])
}

/// The 10 bytes of a message header.
pub fn header_bytes(
    session_id: u16,
    byte_2: u8,
    byte_3: u8,
    presentation_type: u8,
    session_type: u8,
    system: u32,
) -> (r: [u8; 10])
    ensures
        r@ == header_seq(session_id, byte_2, byte_3, presentation_type, session_type, system),
{
    let r: [u8; 10] = [
        (session_id >> 8u16) as u8,
        session_id as u8,
        byte_2,
        byte_3,
        presentation_type,
        session_type,
        (system >> 24u32) as u8,
        (system >> 16u32) as u8,
        (system >> 8u32) as u8,
        system as u8,
    ];
    assert(r@ =~= header_seq(session_id, byte_2, byte_3, presentation_type, session_type, system));
    r
}

/// The session ID held in the first two bytes of a header.
pub fn read_session_id(b: &[u8; 10]) -> (r: u16)
    ensures
        r == session_id_of(b@),
{
    ((b[0] as u16) << 8u16) | (b[1] as u16)
}

/// The system bytes held in bytes 6 to 9 of a header.
pub fn read_system(b: &[u8; 10]) -> (r: u32)
    ensures
        r == system_of(b@),
{
    ((b[6] as u32) << 24u32) | ((b[7] as u32) << 16u32) | ((b[8] as u32) << 8u32) | (b[9] as u32)
}

/// Reading a header back gives the fields it was written from.
pub proof fn lemma_header_fields(
    session_id: u16,
    byte_2: u8,
    byte_3: u8,
    presentation_type: u8,
    session_type: u8,
    system: u32,
)
    ensures
        ({
            let b = header_seq(session_id, byte_2, byte_3, presentation_type, session_type, system);
            &&& b.len() == 10
            &&& session_id_of(b) == session_id
            &&& b[2] == byte_2
            &&& b[3] == byte_3
            &&& b[4] == presentation_type
            &&& b[5] == session_type
            &&& system_of(b) == system
        }),
{
    lemma_u16_bytes(session_id);
    lemma_u32_bytes(system);
}

/// Writing the fields read from 10 bytes gives back those bytes.
pub proof fn lemma_header_bytes(b: Seq<u8>)
    requires
        b.len() == 10,
    ensures
        header_seq(session_id_of(b), b[2], b[3], b[4], b[5], system_of(b)) == b,
{
    let (b0, b1, b6, b7, b8, b9) = (b[0], b[1], b[6], b[7], b[8], b[9]);
    assert(byte16(u16_of(b0, b1), 0) == b0 && byte16(u16_of(b0, b1), 1) == b1) by {
        assert(((((b0 as u16) << 8u16) | (b1 as u16)) >> 8u16) as u8 == b0) by (bit_vector);
        assert(((((b0 as u16) << 8u16) | (b1 as u16)) as u8) == b1) by (bit_vector);
    }
    assert(byte32(u32_of(b6, b7, b8, b9), 0) == b6 && byte32(u32_of(b6, b7, b8, b9), 1) == b7
        && byte32(u32_of(b6, b7, b8, b9), 2) == b8 && byte32(u32_of(b6, b7, b8, b9), 3) == b9) by {
        assert(((((b6 as u32) << 24u32) | ((b7 as u32) << 16u32) | ((b8 as u32) << 8u32) | (
        b9 as u32)) >> 24u32) as u8 == b6) by (bit_vector);
        assert(((((b6 as u32) << 24u32) | ((b7 as u32) << 16u32) | ((b8 as u32) << 8u32) | (
        b9 as u32)) >> 16u32) as u8 == b7) by (bit_vector);
        assert(((((b6 as u32) << 24u32) | ((b7 as u32) << 16u32) | ((b8 as u32) << 8u32) | (
        b9 as u32)) >> 8u32) as u8 == b8) by (bit_vector);
        assert(((((b6 as u32) << 24u32) | ((b7 as u32) << 16u32) | ((b8 as u32) << 8u32) | (
        b9 as u32)) as u8) == b9) by (bit_vector);
    }
    assert(header_seq(session_id_of(b), b[2], b[3], b[4], b[5], system_of(b)) =~= b);
}

/// The 4 bytes that give the length of a message on the wire: the number of
/// bytes of the header and text that follow, big-endian, reduced modulo 2^32.
pub open spec fn length_seq(len: nat) -> Seq<u8> {
    let x = (len % 0x1_0000_0000) as u32;
    seq![byte32(x, 0), byte32(x, 1), byte32(x, 2), byte32(x, 3)]
}

/// The length bytes for a message of `len` bytes; lengths beyond `u32` wrap,
/// as a cast to `u32` does.
pub fn length_bytes(len: usize) -> (r: [u8; 4])
    ensures
        r@ == length_seq(len as nat),
{
    let x: u32 = ((len as u64) % 0x1_0000_0000u64) as u32;
    let r: [u8; 4] = [(x >> 24u32) as u8, (x >> 16u32) as u8, (x >> 8u32) as u8, x as u8];
    assert(r@ =~= length_seq(len as nat));
    r
}

/// The length read from 4 length bytes, if it is at least the 10 bytes of a
/// header; a shorter length makes the message invalid.
pub fn read_length(b: [u8; 4]) -> (r: Option<u32>)
    ensures
        match r {
            Some(n) => n == u32_of(b@[0], b@[1], b@[2], b@[3]) && n >= 10,
            None => u32_of(b@[0], b@[1], b@[2], b@[3]) < 10,
        },
{
    let n: u32 = ((b[0] as u32) << 24u32) | ((b[1] as u32) << 16u32) | ((b[2] as u32) << 8u32) | (
    b[3] as u32);
    if n < 10 {
        None
    } else {
        Some(n)
    }
}

/// The bytes that send a message with this header and text: the length of
/// header and text, the header, then the text.
pub open spec fn wire_seq(header: Seq<u8>, text: Seq<u8>) -> Seq<u8> {
    length_seq(header.len() + text.len()) + header + text
}

/// Reading back the bytes that send a message: the 4 length bytes hold the
/// number of bytes that follow, and what follows is the header, then the
/// text.
pub proof fn lemma_wire_read(header: Seq<u8>, text: Seq<u8>)
    requires
        header.len() + text.len() < 0x1_0000_0000,
    ensures
        ({
            let w = wire_seq(header, text);
            &&& w.len() == 4 + header.len() + text.len()
            &&& u32_of(w[0], w[1], w[2], w[3]) == header.len() + text.len()
            &&& w.skip(4) == header + text
        }),
{
    let n = header.len() + text.len();
    let x = (n % 0x1_0000_0000) as u32;
    assert(x == n);
    lemma_u32_bytes(x);
    let w = wire_seq(header, text);
    assert(w.skip(4) =~= header + text);
}

/// The bytes that send a message with this header and text.
pub fn frame_bytes(header: [u8; 10], text: &Vec<u8>) -> (r: Vec<u8>)
    requires
        text.len() + 10 <= usize::MAX,
    ensures
        r@ == wire_seq(header@, text@),
{
    let len = length_bytes(text.len() + 10);
    let mut out: Vec<u8> = Vec::new();
    let mut i: usize = 0;
    while i < 4
        invariant
            i <= 4,
            len@.len() == 4,
            out@ =~= len@.take(i as int),
        decreases 4 - i,
    {
        out.push(len[i]);
        i = i + 1;
    }
    let mut i: usize = 0;
    while i < 10
        invariant
            i <= 10,
            len@.len() == 4,
            header@.len() == 10,
            out@ =~= len@ + header@.take(i as int),
        decreases 10 - i,
    {
        out.push(header[i]);
        i = i + 1;
    }
    let mut j: usize = 0;
    while j < text.len()
        invariant
            j <= text.len(),
            len@.len() == 4,
            header@.len() == 10,
            out@ =~= len@ + header@ + text@.take(j as int),
        decreases text.len() - j,
    {
        out.push(text[j]);
        j = j + 1;
    }
    assert(out@ =~= wire_seq(header@, text@));
    out
}

/// What `std::time::Duration::from_secs` gives for `secs`: the span of
/// `secs` whole seconds.
pub uninterp spec fn duration_from_secs(secs: u64) -> std::time::Duration;

/// Calls `std::time::Duration::from_secs`. The contract claims only that the
/// result is the one value named [duration_from_secs] for `secs`; the library
/// has no model of `Duration` values, which it only stores and hands on.
#[verifier::external_body]
pub(crate) fn seconds(secs: u64) -> (r: std::time::Duration)
    ensures
        r == duration_from_secs(secs),
{
    std::time::Duration::from_secs(secs)
}

} // verus!
