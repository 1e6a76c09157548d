//! The byte encoding of SECS-II items (SEMI E5 section 9): its mathematical
//! definition, a parser, their round-trip law, and the executable codec.
use vstd::prelude::*;
use crate::secs_ii::ItemV;

verus! {

// ---------------------------------------------------------------------------
// Big-endian bytes of fixed-width values.
// ---------------------------------------------------------------------------

/// Byte `k` (0 = most significant) of the big-endian form of a `u16`.
pub open spec fn byte16(x: u16, k: int) -> u8 {
    if k == 0 { (x >> 8u16) as u8 } else { x as u8 }
}

/// Byte `k` (0 = most significant) of the big-endian form of a `u32`.
pub open spec fn byte32(x: u32, k: int) -> u8 {
    if k == 0 {
        (x >> 24u32) as u8
    } else if k == 1 {
        (x >> 16u32) as u8
    } else if k == 2 {
        (x >> 8u32) as u8
    } else {
        x as u8
    }
}

/// Byte `k` (0 = most significant) of the big-endian form of a `u64`.
pub open spec fn byte64(x: u64, k: int) -> u8 {
    if k == 0 {
        (x >> 56u64) as u8
    } else if k == 1 {
        (x >> 48u64) as u8
    } else if k == 2 {
        (x >> 40u64) as u8
    } else if k == 3 {
        (x >> 32u64) as u8
    } else if k == 4 {
        (x >> 24u64) as u8
    } else if k == 5 {
        (x >> 16u64) as u8
    } else if k == 6 {
        (x >> 8u64) as u8
    } else {
        x as u8
    }
}

/// The `u16` with big-endian bytes `b0 b1`.
pub open spec fn u16_of(b0: u8, b1: u8) -> u16 {
    ((b0 as u16) << 8u16) | (b1 as u16)
}

/// The `u32` with big-endian bytes `b0 .. b3`.
pub open spec fn u32_of(b0: u8, b1: u8, b2: u8, b3: u8) -> u32 {
    ((b0 as u32) << 24u32) | ((b1 as u32) << 16u32) | ((b2 as u32) << 8u32) | (b3 as u32)
}

/// The `u64` with big-endian bytes `b0 .. b7`.
pub open spec fn u64_of(b0: u8, b1: u8, b2: u8, b3: u8, b4: u8, b5: u8, b6: u8, b7: u8) -> u64 {
    ((b0 as u64) << 56u64) | ((b1 as u64) << 48u64) | ((b2 as u64) << 40u64) | ((b3 as u64)
        << 32u64) | ((b4 as u64) << 24u64) | ((b5 as u64) << 16u64) | ((b6 as u64) << 8u64) | (
    b7 as u64)
}

/// The big-endian bytes of a sequence of `u16`, concatenated.
pub open spec fn be16_bytes(s: Seq<u16>) -> Seq<u8> {
    Seq::new(2 * s.len(), |j: int| byte16(s[j / 2], j % 2))
}

/// The big-endian bytes of a sequence of `u32`, concatenated.
pub open spec fn be32_bytes(s: Seq<u32>) -> Seq<u8> {
    Seq::new(4 * s.len(), |j: int| byte32(s[j / 4], j % 4))
}

/// The big-endian bytes of a sequence of `u64`, concatenated.
pub open spec fn be64_bytes(s: Seq<u64>) -> Seq<u8> {
    Seq::new(8 * s.len(), |j: int| byte64(s[j / 8], j % 8))
}

/// The `u16` values read from consecutive pairs of bytes.
pub open spec fn be16_values(b: Seq<u8>) -> Seq<u16> {
    Seq::new(b.len() / 2, |i: int| u16_of(b[2 * i], b[2 * i + 1]))
}

/// The `u32` values read from consecutive groups of four bytes.
pub open spec fn be32_values(b: Seq<u8>) -> Seq<u32> {
    Seq::new(
        b.len() / 4,
        |i: int| u32_of(b[4 * i], b[4 * i + 1], b[4 * i + 2], b[4 * i + 3]),
    )
}

/// The `u64` values read from consecutive groups of eight bytes.
pub open spec fn be64_values(b: Seq<u8>) -> Seq<u64> {
    Seq::new(
        b.len() / 8,
        |i: int|
            u64_of(
                b[8 * i],
                b[8 * i + 1],
                b[8 * i + 2],
                b[8 * i + 3],
                b[8 * i + 4],
                b[8 * i + 5],
                b[8 * i + 6],
                b[8 * i + 7],
            ),
    )
}

/// Two's-complement reinterpretations between signed and unsigned values.
pub open spec fn i8s_as_u8s(s: Seq<i8>) -> Seq<u8> {
    Seq::new(s.len(), |i: int| s[i] as u8)
}

pub open spec fn u8s_as_i8s(s: Seq<u8>) -> Seq<i8> {
    Seq::new(s.len(), |i: int| s[i] as i8)
}

pub open spec fn i16s_as_u16s(s: Seq<i16>) -> Seq<u16> {
    Seq::new(s.len(), |i: int| s[i] as u16)
}

pub open spec fn u16s_as_i16s(s: Seq<u16>) -> Seq<i16> {
    Seq::new(s.len(), |i: int| s[i] as i16)
}

pub open spec fn i32s_as_u32s(s: Seq<i32>) -> Seq<u32> {
    Seq::new(s.len(), |i: int| s[i] as u32)
}

pub open spec fn u32s_as_i32s(s: Seq<u32>) -> Seq<i32> {
    Seq::new(s.len(), |i: int| s[i] as i32)
}

pub open spec fn i64s_as_u64s(s: Seq<i64>) -> Seq<u64> {
    Seq::new(s.len(), |i: int| s[i] as u64)
}

pub open spec fn u64s_as_i64s(s: Seq<u64>) -> Seq<i64> {
    Seq::new(s.len(), |i: int| s[i] as i64)
}

/// Booleans as bytes: `true` is 0, `false` is 1.
pub open spec fn bools_bytes(s: Seq<bool>) -> Seq<u8> {
    Seq::new(s.len(), |i: int| if s[i] { 0u8 } else { 1u8 })
}

/// Bytes as booleans: 0 is `true`, any non-zero byte is `false`.
pub open spec fn bytes_bools(b: Seq<u8>) -> Seq<bool> {
    Seq::new(b.len(), |i: int| b[i] == 0)
}

/// Every byte is an ASCII character code.
pub open spec fn all_ascii(s: Seq<u8>) -> bool {
    forall|i: int| 0 <= i < s.len() ==> s[i] < 128
}

// ---------------------------------------------------------------------------
// The item encoding.
// ---------------------------------------------------------------------------

/// The largest length that the three length bytes of an item header can hold,
/// plus one.
pub open spec fn length_limit() -> nat {
    0x100_0000
}

/// The six-bit format code of an item (SEMI E5 section 9.2.2).
pub open spec fn format_code(v: ItemV) -> u8 {
    match v {
        ItemV::List(_) => 0o00,
        ItemV::Binary(_) => 0o10,
        ItemV::Boolean(_) => 0o11,
        ItemV::Ascii(_) => 0o20,
        ItemV::Jis8(_) => 0o21,
        ItemV::Localized(_, _) => 0o22,
        ItemV::Signed8(_) => 0o30,
        ItemV::Signed1(_) => 0o31,
        ItemV::Signed2(_) => 0o32,
        ItemV::Signed4(_) => 0o34,
        ItemV::Float8(_) => 0o40,
        ItemV::Float4(_) => 0o44,
        ItemV::Unsigned8(_) => 0o50,
        ItemV::Unsigned1(_) => 0o51,
        ItemV::Unsigned2(_) => 0o52,
        ItemV::Unsigned4(_) => 0o54,
    }
}

/// The item body of a non-list item: its values, each in big-endian order.
pub open spec fn body(v: ItemV) -> Seq<u8> {
    match v {
        ItemV::List(_) => Seq::empty(),
        ItemV::Binary(s) => s,
        ItemV::Boolean(s) => bools_bytes(s),
        ItemV::Ascii(s) => s,
        ItemV::Jis8(s) => s,
        ItemV::Localized(_, s) => be16_bytes(s),
        ItemV::Signed8(s) => be64_bytes(i64s_as_u64s(s)),
        ItemV::Signed1(s) => i8s_as_u8s(s),
        ItemV::Signed2(s) => be16_bytes(i16s_as_u16s(s)),
        ItemV::Signed4(s) => be32_bytes(i32s_as_u32s(s)),
        ItemV::Float8(s) => be64_bytes(s),
        ItemV::Float4(s) => be32_bytes(s),
        ItemV::Unsigned8(s) => be64_bytes(s),
        ItemV::Unsigned1(s) => s,
        ItemV::Unsigned2(s) => be16_bytes(s),
        ItemV::Unsigned4(s) => be32_bytes(s),
    }
}

/// The item length: the number of elements of a list, else the number of
/// bytes of the body.
pub open spec fn item_length(v: ItemV) -> nat {
    match v {
        ItemV::List(s) => s.len(),
        _ => body(v).len(),
    }
}

/// The item header: the format byte (format code in bits 8 to 3, number of
/// length bytes in bits 2 to 1), then the length in 1, 2 or 3 big-endian
/// bytes, the fewest that hold it.
pub open spec fn header(code: u8, n: nat) -> Seq<u8> {
    if n < 0x100 {
        seq![(code * 4 + 1) as u8, n as u8]
    } else if n < 0x1_0000 {
        seq![(code * 4 + 2) as u8, (n / 0x100) as u8, (n % 0x100) as u8]
    } else {
        seq![(code * 4 + 3) as u8, (n / 0x1_0000) as u8, ((n / 0x100) % 0x100) as u8, (n % 0x100) as u8]
    }
}

/// The encoding of an item.
pub open spec fn encode(v: ItemV) -> Seq<u8>
    decreases v,
{
    match v {
        ItemV::List(s) => header(0, s.len()) + encode_list(s),
        _ => header(format_code(v), body(v).len()) + body(v),
    }
}

/// The encodings of a sequence of items, concatenated.
pub open spec fn encode_list(s: Seq<ItemV>) -> Seq<u8>
    decreases s,
{
    if s.len() == 0 {
        Seq::empty()
    } else {
        encode(s[0]) + encode_list(s.drop_first())
    }
}

/// A list of fewer than 256 items is encoded as the format byte 0x01, its
/// number of items, then the encodings of its items in order.
pub proof fn lemma_short_list_encoding(s: Seq<ItemV>)
    requires
        s.len() < 256,
    ensures
        encode(ItemV::List(s)) == seq![0x01u8, s.len() as u8] + encode_list(s),
{
    assert(header(0, s.len()) =~= seq![0x01u8, s.len() as u8]);
}

/// The items that have an encoding: no JIS-8 or localized string (whose
/// encoding is not defined here), ASCII of character codes only, and every
/// item length below [length_limit].
pub open spec fn wf(v: ItemV) -> bool
    decreases v,
{
    match v {
        ItemV::List(s) => s.len() < length_limit() && wf_list(s),
        ItemV::Jis8(_) => false,
        ItemV::Localized(_, _) => false,
        ItemV::Ascii(s) => all_ascii(s) && s.len() < length_limit(),
        _ => body(v).len() < length_limit(),
    }
}

/// Every item of the sequence is well-formed.
pub open spec fn wf_list(s: Seq<ItemV>) -> bool
    decreases s,
{
    s.len() == 0 || (wf(s[0]) && wf_list(s.drop_first()))
}

/// [wf_list] holds exactly when every item is well-formed.
pub proof fn lemma_wf_list(s: Seq<ItemV>)
    ensures
        wf_list(s) <==> forall|i: int| 0 <= i < s.len() ==> #[trigger] wf(s[i]),
    decreases s.len(),
{
    if s.len() > 0 {
        let t = s.drop_first();
        lemma_wf_list(t);
        assert(wf_list(s) == (wf(s[0]) && wf_list(t)));
        assert forall|i: int| 0 <= i < t.len() implies t[i] == s[i + 1] by {}
        if forall|i: int| 0 <= i < s.len() ==> #[trigger] wf(s[i]) {
            assert(wf(s[0]));
            assert forall|i: int| 0 <= i < t.len() implies #[trigger] wf(t[i]) by {
                assert(wf(s[i + 1]));
            }
        }
        if wf_list(s) {
            assert forall|i: int| 0 <= i < s.len() implies #[trigger] wf(s[i]) by {
                if i > 0 {
                    assert(s[i] == t[i - 1]);
                }
            }
        }
    }
}

// ---------------------------------------------------------------------------
// The parser.
// ---------------------------------------------------------------------------

/// The item length held in the `nlen` length bytes that follow the format
/// byte `b[0]`.
pub open spec fn length_value(b: Seq<u8>, nlen: int) -> nat {
    if nlen == 1 {
        b[1] as nat
    } else if nlen == 2 {
        (b[1] * 0x100 + b[2]) as nat
    } else {
        (b[1] * 0x1_0000 + b[2] * 0x100 + b[3]) as nat
    }
}

/// The non-list item with format code `code` and body `b`, if the body suits
/// the format.
pub open spec fn parse_body(code: u8, b: Seq<u8>) -> Option<ItemV> {
    if code == 0o10 {
        Some(ItemV::Binary(b))
    } else if code == 0o11 {
        Some(ItemV::Boolean(bytes_bools(b)))
    } else if code == 0o20 {
        if all_ascii(b) { Some(ItemV::Ascii(b)) } else { None }
    } else if code == 0o30 {
        if b.len() % 8 == 0 { Some(ItemV::Signed8(u64s_as_i64s(be64_values(b)))) } else { None }
    } else if code == 0o31 {
        Some(ItemV::Signed1(u8s_as_i8s(b)))
    } else if code == 0o32 {
        if b.len() % 2 == 0 { Some(ItemV::Signed2(u16s_as_i16s(be16_values(b)))) } else { None }
    } else if code == 0o34 {
        if b.len() % 4 == 0 { Some(ItemV::Signed4(u32s_as_i32s(be32_values(b)))) } else { None }
    } else if code == 0o40 {
        if b.len() % 8 == 0 { Some(ItemV::Float8(be64_values(b))) } else { None }
    } else if code == 0o44 {
        if b.len() % 4 == 0 { Some(ItemV::Float4(be32_values(b))) } else { None }
    } else if code == 0o50 {
        if b.len() % 8 == 0 { Some(ItemV::Unsigned8(be64_values(b))) } else { None }
    } else if code == 0o51 {
        Some(ItemV::Unsigned1(b))
    } else if code == 0o52 {
        if b.len() % 2 == 0 { Some(ItemV::Unsigned2(be16_values(b))) } else { None }
    } else if code == 0o54 {
        if b.len() % 4 == 0 { Some(ItemV::Unsigned4(be32_values(b))) } else { None }
    } else {
        None
    }
}

/// The item at the start of `b` and the number of bytes it takes, if `b`
/// starts with a well-formed item.
pub open spec fn parse(b: Seq<u8>) -> Option<(ItemV, int)>
    decreases b.len(), 0int, 0int,
{
    if b.len() < 1 {
        None
    } else {
        let code = (b[0] / 4) as u8;
        let nlen = (b[0] % 4) as int;
        if nlen == 0 || b.len() < 1 + nlen {
            None
        } else {
            let n = length_value(b, nlen);
            let h = 1 + nlen;
            if code == 0 {
                match parse_list(b.skip(h), n) {
                    Some((s, k)) => Some((ItemV::List(s), h + k)),
                    None => None,
                }
            } else if b.len() < h + n {
                None
            } else {
                match parse_body(code, b.subrange(h, h + n)) {
                    Some(v) => Some((v, h + n)),
                    None => None,
                }
            }
        }
    }
}

/// The `n` items at the start of `b` and the number of bytes they take.
pub open spec fn parse_list(b: Seq<u8>, n: nat) -> Option<(Seq<ItemV>, int)>
    decreases b.len(), 1int, n,
{
    if n == 0 {
        Some((Seq::empty(), 0))
    } else {
        match parse(b) {
            Some((v, k)) => if 0 < k <= b.len() {
                match parse_list(b.skip(k), (n - 1) as nat) {
                    Some((s, k2)) => Some((seq![v] + s, k + k2)),
                    None => None,
                }
            } else {
                None
            },
            None => None,
        }
    }
}

/// The item that `b` encodes, exactly and with no bytes left over.
pub open spec fn decode(b: Seq<u8>) -> Option<ItemV> {
    match parse(b) {
        Some((v, k)) => if k == b.len() { Some(v) } else { None },
        None => None,
    }
}

// ---------------------------------------------------------------------------
// The round trip: parsing an encoding gives back the item.
// ---------------------------------------------------------------------------

pub proof fn lemma_u16_bytes(x: u16)
    ensures
        u16_of(byte16(x, 0), byte16(x, 1)) == x,
{
    assert(((((x >> 8u16) as u8) as u16) << 8u16) | ((x as u8) as u16) == x) by (bit_vector);
}

pub proof fn lemma_u32_bytes(x: u32)
    ensures
        u32_of(byte32(x, 0), byte32(x, 1), byte32(x, 2), byte32(x, 3)) == x,
{
    assert(((((x >> 24u32) as u8) as u32) << 24u32) | ((((x >> 16u32) as u8) as u32) << 16u32)
        | ((((x >> 8u32) as u8) as u32) << 8u32) | ((x as u8) as u32) == x) by (bit_vector);
}

proof fn lemma_u64_bytes(x: u64)
    ensures
        u64_of(
            byte64(x, 0),
            byte64(x, 1),
            byte64(x, 2),
            byte64(x, 3),
            byte64(x, 4),
            byte64(x, 5),
            byte64(x, 6),
            byte64(x, 7),
        ) == x,
{
    assert(((((x >> 56u64) as u8) as u64) << 56u64) | ((((x >> 48u64) as u8) as u64) << 48u64)
        | ((((x >> 40u64) as u8) as u64) << 40u64) | ((((x >> 32u64) as u8) as u64) << 32u64)
        | ((((x >> 24u64) as u8) as u64) << 24u64) | ((((x >> 16u64) as u8) as u64) << 16u64)
        | ((((x >> 8u64) as u8) as u64) << 8u64) | ((x as u8) as u64) == x) by (bit_vector);
}

proof fn lemma_be16_roundtrip(s: Seq<u16>)
    ensures
        be16_values(be16_bytes(s)) =~= s,
{
    let b = be16_bytes(s);
    assert forall|i: int| 0 <= i < s.len() implies #[trigger] be16_values(b)[i] == s[i] by {
        assert((2 * i) / 2 == i && (2 * i) % 2 == 0);
        assert((2 * i + 1) / 2 == i && (2 * i + 1) % 2 == 1);
        lemma_u16_bytes(s[i]);
    }
}

proof fn lemma_be32_roundtrip(s: Seq<u32>)
    ensures
        be32_values(be32_bytes(s)) =~= s,
{
    let b = be32_bytes(s);
    assert forall|i: int| 0 <= i < s.len() implies #[trigger] be32_values(b)[i] == s[i] by {
        assert((4 * i) / 4 == i && (4 * i) % 4 == 0);
        assert((4 * i + 1) / 4 == i && (4 * i + 1) % 4 == 1);
        assert((4 * i + 2) / 4 == i && (4 * i + 2) % 4 == 2);
        assert((4 * i + 3) / 4 == i && (4 * i + 3) % 4 == 3);
        lemma_u32_bytes(s[i]);
    }
}

proof fn lemma_be64_roundtrip(s: Seq<u64>)
    ensures
        be64_values(be64_bytes(s)) =~= s,
{
    let b = be64_bytes(s);
    assert forall|i: int| 0 <= i < s.len() implies #[trigger] be64_values(b)[i] == s[i] by {
        assert((8 * i) / 8 == i && (8 * i) % 8 == 0);
        assert((8 * i + 1) / 8 == i && (8 * i + 1) % 8 == 1);
        assert((8 * i + 2) / 8 == i && (8 * i + 2) % 8 == 2);
        assert((8 * i + 3) / 8 == i && (8 * i + 3) % 8 == 3);
        assert((8 * i + 4) / 8 == i && (8 * i + 4) % 8 == 4);
        assert((8 * i + 5) / 8 == i && (8 * i + 5) % 8 == 5);
        assert((8 * i + 6) / 8 == i && (8 * i + 6) % 8 == 6);
        assert((8 * i + 7) / 8 == i && (8 * i + 7) % 8 == 7);
        lemma_u64_bytes(s[i]);
    }
}

proof fn lemma_signed_roundtrips()
    ensures
        forall|x: i8| #![trigger (x as u8)] ((x as u8) as i8) == x,
        forall|x: i16| #![trigger (x as u16)] ((x as u16) as i16) == x,
        forall|x: i32| #![trigger (x as u32)] ((x as u32) as i32) == x,
        forall|x: i64| #![trigger (x as u64)] ((x as u64) as i64) == x,
{
    assert forall|x: i8| #![trigger (x as u8)] ((x as u8) as i8) == x by {
        assert(((x as u8) as i8) == x) by (bit_vector);
    }
    assert forall|x: i16| #![trigger (x as u16)] ((x as u16) as i16) == x by {
        assert(((x as u16) as i16) == x) by (bit_vector);
    }
    assert forall|x: i32| #![trigger (x as u32)] ((x as u32) as i32) == x by {
        assert(((x as u32) as i32) == x) by (bit_vector);
    }
    assert forall|x: i64| #![trigger (x as u64)] ((x as u64) as i64) == x by {
        assert(((x as u64) as i64) == x) by (bit_vector);
    }
}

/// Parsing the body of a non-list item with its format code gives back the
/// item.
proof fn lemma_parse_body(v: ItemV)
    requires
        wf(v),
        !(v is List),
    ensures
        parse_body(format_code(v), body(v)) == Some(v),
{
    lemma_signed_roundtrips();
    match v {
        ItemV::Boolean(s) => {
            assert(bytes_bools(bools_bytes(s)) =~= s);
        },
        ItemV::Signed8(s) => {
            lemma_be64_roundtrip(i64s_as_u64s(s));
            assert(u64s_as_i64s(i64s_as_u64s(s)) =~= s);
        },
        ItemV::Signed1(s) => {
            assert(u8s_as_i8s(i8s_as_u8s(s)) =~= s);
        },
        ItemV::Signed2(s) => {
            lemma_be16_roundtrip(i16s_as_u16s(s));
            assert(u16s_as_i16s(i16s_as_u16s(s)) =~= s);
        },
        ItemV::Signed4(s) => {
            lemma_be32_roundtrip(i32s_as_u32s(s));
            assert(u32s_as_i32s(i32s_as_u32s(s)) =~= s);
        },
        ItemV::Float8(s) => {
            lemma_be64_roundtrip(s);
        },
        ItemV::Float4(s) => {
            lemma_be32_roundtrip(s);
        },
        ItemV::Unsigned8(s) => {
            lemma_be64_roundtrip(s);
        },
        ItemV::Unsigned2(s) => {
            lemma_be16_roundtrip(s);
        },
        ItemV::Unsigned4(s) => {
            lemma_be32_roundtrip(s);
        },
        _ => {},
    }
}

/// The header of an item is read back by the parser.
proof fn lemma_header(code: u8, n: nat, rest: Seq<u8>)
    requires
        code < 64,
        n < length_limit(),
    ensures
        ({
            let hb = header(code, n);
            let b = hb + rest;
            &&& 2 <= hb.len() <= 4
            &&& b[0] / 4 == code
            &&& b[0] % 4 == hb.len() - 1
            &&& length_value(b, hb.len() - 1) == n
        }),
{
}

/// Encodings are never empty.
pub proof fn lemma_encode_len(v: ItemV)
    ensures
        encode(v).len() >= 2,
{
    match v {
        ItemV::List(s) => {},
        _ => {},
    }
}

/// Parsing the encoding of a well-formed item, followed by any bytes, gives
/// back the item and the length of its encoding.
pub proof fn lemma_parse_encode(v: ItemV, rest: Seq<u8>)
    requires
        wf(v),
    ensures
        parse(encode(v) + rest) == Some((v, encode(v).len() as int)),
    decreases v,
{
    let b = encode(v) + rest;
    match v {
        ItemV::List(s) => {
            let hb = header(0, s.len());
            lemma_header(0, s.len(), encode_list(s) + rest);
            assert(b =~= hb + (encode_list(s) + rest));
            let h = hb.len() as int;
            assert(b.skip(h) =~= encode_list(s) + rest);
            lemma_wf_list(s);
            lemma_parse_list_encode(s, rest);
        },
        _ => {
            let bd = body(v);
            let hb = header(format_code(v), bd.len());
            lemma_header(format_code(v), bd.len(), bd + rest);
            assert(b =~= hb + (bd + rest));
            let h = hb.len() as int;
            assert(b.subrange(h, h + bd.len()) =~= bd);
            lemma_parse_body(v);
        },
    }
}

/// Parsing the concatenated encodings of well-formed items, followed by any
/// bytes, gives back the items.
pub proof fn lemma_parse_list_encode(s: Seq<ItemV>, rest: Seq<u8>)
    requires
        forall|i: int| 0 <= i < s.len() ==> #[trigger] wf(s[i]),
    ensures
        parse_list(encode_list(s) + rest, s.len()) == Some((s, encode_list(s).len() as int)),
    decreases s,
{
    if s.len() == 0 {
        assert(s =~= Seq::<ItemV>::empty());
    } else {
        let tail = s.drop_first();
        let e0 = encode(s[0]);
        let b = encode_list(s) + rest;
        assert(b =~= e0 + (encode_list(tail) + rest));
        lemma_parse_encode(s[0], encode_list(tail) + rest);
        lemma_encode_len(s[0]);
        assert(b.skip(e0.len() as int) =~= encode_list(tail) + rest);
        assert forall|i: int| 0 <= i < tail.len() implies #[trigger] wf(tail[i]) by {
            assert(tail[i] == s[i + 1]);
        }
        lemma_parse_list_encode(tail, rest);
        assert(seq![s[0]] + tail =~= s);
    }
}

/// Decoding the encoding of a well-formed item gives back the item.
pub proof fn lemma_decode_encode(v: ItemV)
    requires
        wf(v),
    ensures
        decode(encode(v)) == Some(v),
{
    lemma_parse_encode(v, Seq::empty());
    assert(encode(v) + Seq::<u8>::empty() =~= encode(v));
}


// ---------------------------------------------------------------------------
// The other direction: whatever is decoded has an encoding.
// ---------------------------------------------------------------------------

/// A non-list item parsed from a body shorter than 2^24 bytes has an
/// encoding, and its body is that many bytes long.
proof fn lemma_parse_body_wf(code: u8, b: Seq<u8>)
    requires
        b.len() < length_limit(),
    ensures
        parse_body(code, b) matches Some(v) ==> wf(v) && !(v is List) && body(v).len() == b.len(),
{
    if parse_body(code, b) is Some {
        if code == 0o30 || code == 0o40 || code == 0o50 {
            assert(8 * (b.len() / 8) == b.len());
        } else if code == 0o32 || code == 0o52 {
            assert(2 * (b.len() / 2) == b.len());
        } else if code == 0o34 || code == 0o44 || code == 0o54 {
            assert(4 * (b.len() / 4) == b.len());
        }
    }
}

/// An item at the start of some bytes has an encoding, and takes at least
/// one and at most all of the bytes.
pub proof fn lemma_parse_wf(b: Seq<u8>)
    ensures
        parse(b) matches Some((v, k)) ==> wf(v) && 0 < k <= b.len(),
    decreases b.len(), 0int, 0int,
{
    if b.len() >= 1 {
        let code = (b[0] / 4) as u8;
        let nlen = (b[0] % 4) as int;
        if nlen != 0 && b.len() >= 1 + nlen {
            let n = length_value(b, nlen);
            let h = 1 + nlen;
            assert(n < length_limit());
            if code == 0 {
                lemma_parse_list_wf(b.skip(h), n);
            } else if b.len() >= h + n {
                lemma_parse_body_wf(code, b.subrange(h, h + n));
            }
        }
    }
}

/// The `n` items at the start of some bytes have encodings, and take at most
/// all of the bytes.
pub proof fn lemma_parse_list_wf(b: Seq<u8>, n: nat)
    ensures
        parse_list(b, n) matches Some((s, k)) ==> s.len() == n && wf_list(s) && 0 <= k <= b.len(),
    decreases b.len(), 1int, n,
{
    if n > 0 {
        lemma_parse_wf(b);
        if let Some((v, k)) = parse(b) {
            if 0 < k <= b.len() {
                lemma_parse_list_wf(b.skip(k), (n - 1) as nat);
                if let Some((s, k2)) = parse_list(b.skip(k), (n - 1) as nat) {
                    let t = seq![v] + s;
                    assert(t[0] == v);
                    assert(t.drop_first() =~= s);
                }
            }
        }
    }
}

/// Every item that some bytes decode to has an encoding.
pub proof fn lemma_decode_wf(b: Seq<u8>)
    ensures
        decode(b) matches Some(v) ==> wf(v),
{
    lemma_parse_wf(b);
}

// ---------------------------------------------------------------------------
// The byte layout of single values, stated with plain arithmetic.
// ---------------------------------------------------------------------------

proof fn lemma_bytes16(x: u16)
    ensures
        be16_bytes(seq![x]) == seq![(x / 0x100) as u8, (x % 0x100) as u8],
{
    assert(
        (((x >> 8u16) as u8) == ((x / 0x100) as u8))
        && ((x as u8) == ((x % 0x100) as u8))
    ) by (bit_vector);
    assert(be16_bytes(seq![x]) =~= seq![(x / 0x100) as u8, (x % 0x100) as u8]);
}

proof fn lemma_bytes32(x: u32)
    ensures
        be32_bytes(seq![x]) == seq![
            (x / 0x100_0000) as u8,
            ((x / 0x1_0000) % 0x100) as u8,
            ((x / 0x100) % 0x100) as u8,
            (x % 0x100) as u8,
        ],
{
    assert(
        (((x >> 24u32) as u8) == ((x / 0x100_0000) as u8))
        && (((x >> 16u32) as u8) == (((x / 0x1_0000) % 0x100) as u8))
        && (((x >> 8u32) as u8) == (((x / 0x100) % 0x100) as u8))
        && ((x as u8) == ((x % 0x100) as u8))
    ) by (bit_vector);
    assert(be32_bytes(seq![x]) =~= seq![
        (x / 0x100_0000) as u8,
        ((x / 0x1_0000) % 0x100) as u8,
        ((x / 0x100) % 0x100) as u8,
        (x % 0x100) as u8,
    ]);
}

/// The eight big-endian bytes of a `u64`, by division.
pub open spec fn be64_of(x: u64) -> Seq<u8> {
    seq![
        (x / 0x100_0000_0000_0000) as u8,
        ((x / 0x1_0000_0000_0000) % 0x100) as u8,
        ((x / 0x100_0000_0000) % 0x100) as u8,
        ((x / 0x1_0000_0000) % 0x100) as u8,
        ((x / 0x100_0000) % 0x100) as u8,
        ((x / 0x1_0000) % 0x100) as u8,
        ((x / 0x100) % 0x100) as u8,
        (x % 0x100) as u8,
    ]
}

proof fn lemma_bytes64(x: u64)
    ensures
        be64_bytes(seq![x]) == be64_of(x),
{
    assert(
        (((x >> 56u64) as u8) == ((x / 0x100_0000_0000_0000) as u8))
        && (((x >> 48u64) as u8) == (((x / 0x1_0000_0000_0000) % 0x100) as u8))
        && (((x >> 40u64) as u8) == (((x / 0x100_0000_0000) % 0x100) as u8))
        && (((x >> 32u64) as u8) == (((x / 0x1_0000_0000) % 0x100) as u8))
        && (((x >> 24u64) as u8) == (((x / 0x100_0000) % 0x100) as u8))
        && (((x >> 16u64) as u8) == (((x / 0x1_0000) % 0x100) as u8))
        && (((x >> 8u64) as u8) == (((x / 0x100) % 0x100) as u8))
        && ((x as u8) == ((x % 0x100) as u8))
    ) by (bit_vector);
    assert(be64_bytes(seq![x]) =~= be64_of(x));
}

/// How an item holding one value is encoded (SEMI E5 section 9): the format
/// byte (binary 0x21, boolean 0x25, ASCII 0x41, signed 0x65, 0x69, 0x71,
/// 0x61, unsigned 0xA5, 0xA9, 0xB1, 0xA1, floats 0x91 and 0x81, each the
/// format code times 4 plus one length byte), the number of body bytes, then
/// the value, most significant byte first and signed values in two's
/// complement; a boolean is 0 for true and 1 for false. An empty list is
/// 0x01 0x00.
pub proof fn lemma_single_value_encodings(
    b: u8,
    t: bool,
    s1: i8,
    s2: i16,
    s4: i32,
    s8: i64,
    u2: u16,
    u4: u32,
    u8v: u64,
)
    ensures
        encode(ItemV::List(Seq::empty())) == seq![0x01u8, 0],
        encode(ItemV::Binary(seq![b])) == seq![0x21u8, 1, b],
        encode(ItemV::Boolean(seq![t])) == seq![0x25u8, 1, if t { 0u8 } else { 1u8 }],
        encode(ItemV::Ascii(seq![b])) == seq![0x41u8, 1, b],
        encode(ItemV::Unsigned1(seq![b])) == seq![0xA5u8, 1, b],
        encode(ItemV::Signed1(seq![s1])) == seq![0x65u8, 1, s1 as u8],
        encode(ItemV::Unsigned2(seq![u2])) == seq![0xA9u8, 2] + be16_bytes_of(u2),
        encode(ItemV::Signed2(seq![s2])) == seq![0x69u8, 2] + be16_bytes_of(s2 as u16),
        encode(ItemV::Unsigned4(seq![u4])) == seq![0xB1u8, 4] + be32_bytes_of(u4),
        encode(ItemV::Signed4(seq![s4])) == seq![0x71u8, 4] + be32_bytes_of(s4 as u32),
        encode(ItemV::Float4(seq![u4])) == seq![0x91u8, 4] + be32_bytes_of(u4),
        encode(ItemV::Unsigned8(seq![u8v])) == seq![0xA1u8, 8] + be64_of(u8v),
        encode(ItemV::Signed8(seq![s8])) == seq![0x61u8, 8] + be64_of(s8 as u64),
        encode(ItemV::Float8(seq![u8v])) == seq![0x81u8, 8] + be64_of(u8v),
{
    lemma_bytes16(u2);
    lemma_bytes16(s2 as u16);
    lemma_bytes32(u4);
    lemma_bytes32(s4 as u32);
    lemma_bytes64(u8v);
    lemma_bytes64(s8 as u64);
    assert(encode_list(Seq::<ItemV>::empty()) =~= Seq::<u8>::empty());
    assert(encode(ItemV::List(Seq::empty())) =~= seq![0x01u8, 0]);
    assert(encode(ItemV::Binary(seq![b])) =~= seq![0x21u8, 1, b]);
    assert(bools_bytes(seq![t]) =~= seq![if t { 0u8 } else { 1u8 }]);
    assert(encode(ItemV::Boolean(seq![t])) =~= seq![0x25u8, 1, if t { 0u8 } else { 1u8 }]);
    assert(encode(ItemV::Ascii(seq![b])) =~= seq![0x41u8, 1, b]);
    assert(encode(ItemV::Unsigned1(seq![b])) =~= seq![0xA5u8, 1, b]);
    assert(i8s_as_u8s(seq![s1]) =~= seq![s1 as u8]);
    assert(encode(ItemV::Signed1(seq![s1])) =~= seq![0x65u8, 1, s1 as u8]);
    assert(i16s_as_u16s(seq![s2]) =~= seq![s2 as u16]);
    assert(i32s_as_u32s(seq![s4]) =~= seq![s4 as u32]);
    assert(i64s_as_u64s(seq![s8]) =~= seq![s8 as u64]);
    assert(encode(ItemV::Unsigned2(seq![u2])) =~= seq![0xA9u8, 2] + be16_bytes_of(u2));
    assert(encode(ItemV::Signed2(seq![s2])) =~= seq![0x69u8, 2] + be16_bytes_of(s2 as u16));
    assert(encode(ItemV::Unsigned4(seq![u4])) =~= seq![0xB1u8, 4] + be32_bytes_of(u4));
    assert(encode(ItemV::Signed4(seq![s4])) =~= seq![0x71u8, 4] + be32_bytes_of(s4 as u32));
    assert(encode(ItemV::Float4(seq![u4])) =~= seq![0x91u8, 4] + be32_bytes_of(u4));
    assert(encode(ItemV::Unsigned8(seq![u8v])) =~= seq![0xA1u8, 8] + be64_of(u8v));
    assert(encode(ItemV::Signed8(seq![s8])) =~= seq![0x61u8, 8] + be64_of(s8 as u64));
    assert(encode(ItemV::Float8(seq![u8v])) =~= seq![0x81u8, 8] + be64_of(u8v));
}

/// The two big-endian bytes of a `u16`, by division.
pub open spec fn be16_bytes_of(x: u16) -> Seq<u8> {
    seq![(x / 0x100) as u8, (x % 0x100) as u8]
}

/// The four big-endian bytes of a `u32`, by division.
pub open spec fn be32_bytes_of(x: u32) -> Seq<u8> {
    seq![
        (x / 0x100_0000) as u8,
        ((x / 0x1_0000) % 0x100) as u8,
        ((x / 0x100) % 0x100) as u8,
        (x % 0x100) as u8,
    ]
}

/// The item header of a non-list item: one, two or three length bytes,
/// the fewest that hold the number of body bytes, big-endian, after the
/// format byte, which is the format code times 4 plus the number of length
/// bytes.
pub proof fn lemma_header_layout(v: ItemV)
    requires
        !(v is List),
        body(v).len() < length_limit(),
    ensures
        ({
            let n = body(v).len();
            let c = format_code(v);
            &&& n < 0x100 ==> encode(v) == seq![(c * 4 + 1) as u8, n as u8] + body(v)
            &&& 0x100 <= n < 0x1_0000 ==> encode(v) == seq![(c * 4 + 2) as u8, (n / 0x100) as u8, (n % 0x100) as u8]
                + body(v)
            &&& 0x1_0000 <= n ==> encode(v) == seq![
                (c * 4 + 3) as u8,
                (n / 0x1_0000) as u8,
                ((n / 0x100) % 0x100) as u8,
                (n % 0x100) as u8,
            ] + body(v)
        }),
{
}

/// A one-byte boolean item reads as true exactly when its byte is 0; a
/// two-byte unsigned item reads most significant byte first.
pub proof fn lemma_decode_single_values(x: u8, hi: u8, lo: u8)
    ensures
        decode(seq![0x25u8, 1, x]) == Some(ItemV::Boolean(seq![x == 0])),
        decode(seq![0xA9u8, 2, hi, lo]) == Some(ItemV::Unsigned2(seq![(hi * 0x100 + lo) as u16])),
{
    let b = seq![0x25u8, 1, x];
    assert(b.subrange(2, 3) =~= seq![x]);
    assert(bytes_bools(seq![x]) =~= seq![x == 0]);
    let c = seq![0xA9u8, 2, hi, lo];
    assert(c.subrange(2, 4) =~= seq![hi, lo]);
    assert((((hi as u16) << 8u16) | (lo as u16)) == (hi as u16) * 0x100 + (lo as u16)) by (bit_vector);
    assert(be16_values(seq![hi, lo]) =~= seq![(hi * 0x100 + lo) as u16]);
}

} // verus!
