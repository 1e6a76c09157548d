//! Executable encoding and decoding of item bodies and headers.
use vstd::prelude::*;
use crate::secs_ii::codec::{
    all_ascii, be16_bytes, be16_values, be32_bytes, be32_values, be64_bytes, be64_values, bools_bytes,
    byte16, byte32, byte64, bytes_bools, header, i16s_as_u16s, i32s_as_u32s, i64s_as_u64s,
    i8s_as_u8s, u16_of, u16s_as_i16s, u32_of, u32s_as_i32s, u64_of, u64s_as_i64s, u8s_as_i8s,
};

verus! {

/// Appends the item header for format `code` and item length `n`.
pub fn push_header(out: &mut Vec<u8>, code: u8, n: usize)
    requires
        code < 64,
        n < 0x100_0000,
    ensures
        final(out)@ == old(out)@ + header(code, n as nat),
{
    let ghost start = out@;
    if n < 0x100 {
        out.push(code * 4 + 1);
        out.push(n as u8);
    } else if n < 0x1_0000 {
        out.push(code * 4 + 2);
        out.push((n / 0x100) as u8);
        out.push((n % 0x100) as u8);
    } else {
        out.push(code * 4 + 3);
        out.push((n / 0x1_0000) as u8);
        out.push(((n / 0x100) % 0x100) as u8);
        out.push((n % 0x100) as u8);
    }
    assert(out@ =~= start + header(code, n as nat));
}

/// Appends bytes.
pub fn push_u8s(out: &mut Vec<u8>, s: &Vec<u8>)
    ensures
        final(out)@ == old(out)@ + s@,
{
    let ghost start = out@;
    let mut i: usize = 0;
    while i < s.len()
        invariant
            i <= s.len(),
            out@ == start + s@.take(i as int),
        decreases s.len() - i,
    {
        out.push(s[i]);
        i = i + 1;
        assert(s@.take(i as int) =~= s@.take(i - 1) + seq![s@[i - 1]]);
    }
    assert(s@.take(i as int) =~= s@);
}

/// Appends signed bytes in two's complement.
pub fn push_i8s(out: &mut Vec<u8>, s: &Vec<i8>)
    ensures
        final(out)@ == old(out)@ + i8s_as_u8s(s@),
{
    let ghost start = out@;
    let mut i: usize = 0;
    while i < s.len()
        invariant
            i <= s.len(),
            out@ == start + i8s_as_u8s(s@.take(i as int)),
        decreases s.len() - i,
    {
        out.push(s[i] as u8);
        i = i + 1;
        assert(i8s_as_u8s(s@.take(i as int)) =~= i8s_as_u8s(s@.take(i - 1)) + seq![s@[i - 1] as u8]);
    }
    assert(s@.take(i as int) =~= s@);
}

/// Appends booleans, one byte each: 0 for `true`, 1 for `false`.
pub fn push_bools(out: &mut Vec<u8>, s: &Vec<bool>)
    ensures
        final(out)@ == old(out)@ + bools_bytes(s@),
{
    let ghost start = out@;
    let mut i: usize = 0;
    while i < s.len()
        invariant
            i <= s.len(),
            out@ == start + bools_bytes(s@.take(i as int)),
        decreases s.len() - i,
    {
        let byte: u8 = if s[i] { 0 } else { 1 };
        out.push(byte);
        i = i + 1;
        assert(bools_bytes(s@.take(i as int)) =~= bools_bytes(s@.take(i - 1)) + seq![byte]);
    }
    assert(s@.take(i as int) =~= s@);
}

/// The bytes `b[start .. start + n]`.
pub fn copy_bytes(b: &Vec<u8>, start: usize, n: usize) -> (r: Vec<u8>)
    requires
        start + n <= b.len(),
    ensures
        r@ == b@.subrange(start as int, start + n),
{
    let mut r: Vec<u8> = Vec::new();
    let mut i: usize = 0;
    while i < n
        invariant
            i <= n,
            start + n <= b.len(),
            r@ =~= b@.subrange(start as int, start + i),
        decreases n - i,
    {
        r.push(b[start + i]);
        i = i + 1;
    }
    r
}

/// Whether every byte of `b[start .. start + n]` is an ASCII character code.
pub fn check_ascii(b: &Vec<u8>, start: usize, n: usize) -> (r: bool)
    requires
        start + n <= b.len(),
    ensures
        r == all_ascii(b@.subrange(start as int, start + n)),
{
    let mut i: usize = 0;
    while i < n
        invariant
            i <= n,
            start + n <= b.len(),
            all_ascii(b@.subrange(start as int, start + i)),
        decreases n - i,
    {
        if b[start + i] >= 128 {
            assert(b@.subrange(start as int, start + n)[i as int] == b@[start + i]);
            return false;
        }
        i = i + 1;
    }
    true
}

/// The signed bytes of `b[start .. start + n]`.
pub fn read_i8s(b: &Vec<u8>, start: usize, n: usize) -> (r: Vec<i8>)
    requires
        start + n <= b.len(),
    ensures
        r@ == u8s_as_i8s(b@.subrange(start as int, start + n)),
{
    let mut r: Vec<i8> = Vec::new();
    let mut i: usize = 0;
    while i < n
        invariant
            i <= n,
            start + n <= b.len(),
            r@ =~= u8s_as_i8s(b@.subrange(start as int, start + i)),
        decreases n - i,
    {
        r.push(b[start + i] as i8);
        i = i + 1;
    }
    r
}

/// The booleans of `b[start .. start + n]`: 0 means `true`, any other
/// byte `false`.
pub fn read_bools(b: &Vec<u8>, start: usize, n: usize) -> (r: Vec<bool>)
    requires
        start + n <= b.len(),
    ensures
        r@ == bytes_bools(b@.subrange(start as int, start + n)),
{
    let mut r: Vec<bool> = Vec::new();
    let mut i: usize = 0;
    while i < n
        invariant
            i <= n,
            start + n <= b.len(),
            r@ =~= bytes_bools(b@.subrange(start as int, start + i)),
        decreases n - i,
    {
        r.push(b[start + i] == 0);
        i = i + 1;
    }
    r
}

/// Appends the big-endian bytes of each value.
pub fn push_u16s(out: &mut Vec<u8>, s: &Vec<u16>)
    ensures
        final(out)@ == old(out)@ + be16_bytes(s@),
{
    let ghost start = out@;
    let mut i: usize = 0;
    while i < s.len()
        invariant
            i <= s.len(),
            out@ == start + be16_bytes(s@.take(i as int)),
        decreases s.len() - i,
    {
        let x: u16 = s[i];
        out.push((x >> 8u16) as u8);
        out.push(x as u8);
        i = i + 1;
        proof {
            let prev = s@.take(i - 1);
            let cur = s@.take(i as int);
            assert(cur =~= prev.push(x));
            assert forall|j: int| 0 <= j < 2 * prev.len() implies #[trigger] be16_bytes(cur)[j] == be16_bytes(prev)[j] by {
                assert(j / 2 < prev.len());
            }
            assert forall|k: int| 0 <= k < 2 implies #[trigger] be16_bytes(cur)[2 * prev.len() + k] == byte16(x, k) by {
                assert((2 * prev.len() + k) / 2 == prev.len());
                assert((2 * prev.len() + k) % 2 == k);
            }
            assert(be16_bytes(cur) =~= be16_bytes(prev) + seq![byte16(x, 0), byte16(x, 1)]);
        }
    }
    assert(s@.take(i as int) =~= s@);
}

/// The values of `b[start .. start + n]`, read from consecutive groups of
/// 2 big-endian bytes.
pub fn read_u16s(b: &Vec<u8>, start: usize, n: usize) -> (r: Vec<u16>)
    requires
        start + n <= b.len(),
        n % 2 == 0,
    ensures
        r@ == be16_values(b@.subrange(start as int, start + n)),
{
    let ghost sub = b@.subrange(start as int, start + n);
    let mut r: Vec<u16> = Vec::new();
    let mut i: usize = 0;
    while i < n / 2
        invariant
            i <= n / 2,
            start + n <= b.len(),
            n % 2 == 0,
            sub == b@.subrange(start as int, start + n),
            r@ =~= be16_values(b@.subrange(start as int, start + n)).take(i as int),
        decreases n / 2 - i,
    {
        assert(2 * i + 2 <= n);
        let p = start + 2 * i;
        let x: u16 = ((b[p] as u16) << 8u16) | (b[p + 1] as u16);
        proof {
            assert(x == u16_of(sub[2 * i], sub[2 * i + 1]));
        }
        r.push(x);
        i = i + 1;
    }
    r
}

/// Appends the big-endian bytes of each value.
pub fn push_i16s(out: &mut Vec<u8>, s: &Vec<i16>)
    ensures
        final(out)@ == old(out)@ + be16_bytes(i16s_as_u16s(s@)),
{
    let ghost start = out@;
    let mut i: usize = 0;
    while i < s.len()
        invariant
            i <= s.len(),
            out@ == start + be16_bytes(i16s_as_u16s(s@.take(i as int))),
        decreases s.len() - i,
    {
        let x: u16 = s[i] as u16;
        out.push((x >> 8u16) as u8);
        out.push(x as u8);
        i = i + 1;
        proof {
            let prev = i16s_as_u16s(s@.take(i - 1));
            let cur = i16s_as_u16s(s@.take(i as int));
            assert(cur =~= prev.push(x));
            assert forall|j: int| 0 <= j < 2 * prev.len() implies #[trigger] be16_bytes(cur)[j] == be16_bytes(prev)[j] by {
                assert(j / 2 < prev.len());
            }
            assert forall|k: int| 0 <= k < 2 implies #[trigger] be16_bytes(cur)[2 * prev.len() + k] == byte16(x, k) by {
                assert((2 * prev.len() + k) / 2 == prev.len());
                assert((2 * prev.len() + k) % 2 == k);
            }
            assert(be16_bytes(cur) =~= be16_bytes(prev) + seq![byte16(x, 0), byte16(x, 1)]);
        }
    }
    assert(s@.take(i as int) =~= s@);
}

/// The values of `b[start .. start + n]`, read from consecutive groups of
/// 2 big-endian bytes.
pub fn read_i16s(b: &Vec<u8>, start: usize, n: usize) -> (r: Vec<i16>)
    requires
        start + n <= b.len(),
        n % 2 == 0,
    ensures
        r@ == u16s_as_i16s(be16_values(b@.subrange(start as int, start + n))),
{
    let ghost sub = b@.subrange(start as int, start + n);
    let mut r: Vec<i16> = Vec::new();
    let mut i: usize = 0;
    while i < n / 2
        invariant
            i <= n / 2,
            start + n <= b.len(),
            n % 2 == 0,
            sub == b@.subrange(start as int, start + n),
            r@ =~= u16s_as_i16s(be16_values(b@.subrange(start as int, start + n))).take(i as int),
        decreases n / 2 - i,
    {
        assert(2 * i + 2 <= n);
        let p = start + 2 * i;
        let x: u16 = ((b[p] as u16) << 8u16) | (b[p + 1] as u16);
        proof {
            assert(x == u16_of(sub[2 * i], sub[2 * i + 1]));
        }
        r.push(x as i16);
        i = i + 1;
    }
    r
}

/// Appends the big-endian bytes of each value.
pub fn push_u32s(out: &mut Vec<u8>, s: &Vec<u32>)
    ensures
        final(out)@ == old(out)@ + be32_bytes(s@),
{
    let ghost start = out@;
    let mut i: usize = 0;
    while i < s.len()
        invariant
            i <= s.len(),
            out@ == start + be32_bytes(s@.take(i as int)),
        decreases s.len() - i,
    {
        let x: u32 = s[i];
        out.push((x >> 24u32) as u8);
        out.push((x >> 16u32) as u8);
        out.push((x >> 8u32) as u8);
        out.push(x as u8);
        i = i + 1;
        proof {
            let prev = s@.take(i - 1);
            let cur = s@.take(i as int);
            assert(cur =~= prev.push(x));
            assert forall|j: int| 0 <= j < 4 * prev.len() implies #[trigger] be32_bytes(cur)[j] == be32_bytes(prev)[j] by {
                assert(j / 4 < prev.len());
            }
            assert forall|k: int| 0 <= k < 4 implies #[trigger] be32_bytes(cur)[4 * prev.len() + k] == byte32(x, k) by {
                assert((4 * prev.len() + k) / 4 == prev.len());
                assert((4 * prev.len() + k) % 4 == k);
            }
            assert(be32_bytes(cur) =~= be32_bytes(prev) + seq![byte32(x, 0), byte32(x, 1), byte32(x, 2), byte32(x, 3)]);
        }
    }
    assert(s@.take(i as int) =~= s@);
}

/// The values of `b[start .. start + n]`, read from consecutive groups of
/// 4 big-endian bytes.
pub fn read_u32s(b: &Vec<u8>, start: usize, n: usize) -> (r: Vec<u32>)
    requires
        start + n <= b.len(),
        n % 4 == 0,
    ensures
        r@ == be32_values(b@.subrange(start as int, start + n)),
{
    let ghost sub = b@.subrange(start as int, start + n);
    let mut r: Vec<u32> = Vec::new();
    let mut i: usize = 0;
    while i < n / 4
        invariant
            i <= n / 4,
            start + n <= b.len(),
            n % 4 == 0,
            sub == b@.subrange(start as int, start + n),
            r@ =~= be32_values(b@.subrange(start as int, start + n)).take(i as int),
        decreases n / 4 - i,
    {
        assert(4 * i + 4 <= n);
        let p = start + 4 * i;
        let x: u32 = ((b[p] as u32) << 24u32) | ((b[p + 1] as u32) << 16u32) | ((b[p + 2] as u32) << 8u32) | (b[p + 3] as u32);
        proof {
            assert(x == u32_of(sub[4 * i], sub[4 * i + 1], sub[4 * i + 2], sub[4 * i + 3]));
        }
        r.push(x);
        i = i + 1;
    }
    r
}

/// Appends the big-endian bytes of each value.
pub fn push_i32s(out: &mut Vec<u8>, s: &Vec<i32>)
    ensures
        final(out)@ == old(out)@ + be32_bytes(i32s_as_u32s(s@)),
{
    let ghost start = out@;
    let mut i: usize = 0;
    while i < s.len()
        invariant
            i <= s.len(),
            out@ == start + be32_bytes(i32s_as_u32s(s@.take(i as int))),
        decreases s.len() - i,
    {
        let x: u32 = s[i] as u32;
        out.push((x >> 24u32) as u8);
        out.push((x >> 16u32) as u8);
        out.push((x >> 8u32) as u8);
        out.push(x as u8);
        i = i + 1;
        proof {
            let prev = i32s_as_u32s(s@.take(i - 1));
            let cur = i32s_as_u32s(s@.take(i as int));
            assert(cur =~= prev.push(x));
            assert forall|j: int| 0 <= j < 4 * prev.len() implies #[trigger] be32_bytes(cur)[j] == be32_bytes(prev)[j] by {
                assert(j / 4 < prev.len());
            }
            assert forall|k: int| 0 <= k < 4 implies #[trigger] be32_bytes(cur)[4 * prev.len() + k] == byte32(x, k) by {
                assert((4 * prev.len() + k) / 4 == prev.len());
                assert((4 * prev.len() + k) % 4 == k);
            }
            assert(be32_bytes(cur) =~= be32_bytes(prev) + seq![byte32(x, 0), byte32(x, 1), byte32(x, 2), byte32(x, 3)]);
        }
    }
    assert(s@.take(i as int) =~= s@);
}

/// The values of `b[start .. start + n]`, read from consecutive groups of
/// 4 big-endian bytes.
pub fn read_i32s(b: &Vec<u8>, start: usize, n: usize) -> (r: Vec<i32>)
    requires
        start + n <= b.len(),
        n % 4 == 0,
    ensures
        r@ == u32s_as_i32s(be32_values(b@.subrange(start as int, start + n))),
{
    let ghost sub = b@.subrange(start as int, start + n);
    let mut r: Vec<i32> = Vec::new();
    let mut i: usize = 0;
    while i < n / 4
        invariant
            i <= n / 4,
            start + n <= b.len(),
            n % 4 == 0,
            sub == b@.subrange(start as int, start + n),
            r@ =~= u32s_as_i32s(be32_values(b@.subrange(start as int, start + n))).take(i as int),
        decreases n / 4 - i,
    {
        assert(4 * i + 4 <= n);
        let p = start + 4 * i;
        let x: u32 = ((b[p] as u32) << 24u32) | ((b[p + 1] as u32) << 16u32) | ((b[p + 2] as u32) << 8u32) | (b[p + 3] as u32);
        proof {
            assert(x == u32_of(sub[4 * i], sub[4 * i + 1], sub[4 * i + 2], sub[4 * i + 3]));
        }
        r.push(x as i32);
        i = i + 1;
    }
    r
}

/// Appends the big-endian bytes of each value.
pub fn push_u64s(out: &mut Vec<u8>, s: &Vec<u64>)
    ensures
        final(out)@ == old(out)@ + be64_bytes(s@),
{
    let ghost start = out@;
    let mut i: usize = 0;
    while i < s.len()
        invariant
            i <= s.len(),
            out@ == start + be64_bytes(s@.take(i as int)),
        decreases s.len() - i,
    {
        let x: u64 = s[i];
        out.push((x >> 56u64) as u8);
        out.push((x >> 48u64) as u8);
        out.push((x >> 40u64) as u8);
        out.push((x >> 32u64) as u8);
        out.push((x >> 24u64) as u8);
        out.push((x >> 16u64) as u8);
        out.push((x >> 8u64) as u8);
        out.push(x as u8);
        i = i + 1;
        proof {
            let prev = s@.take(i - 1);
            let cur = s@.take(i as int);
            assert(cur =~= prev.push(x));
            assert forall|j: int| 0 <= j < 8 * prev.len() implies #[trigger] be64_bytes(cur)[j] == be64_bytes(prev)[j] by {
                assert(j / 8 < prev.len());
            }
            assert forall|k: int| 0 <= k < 8 implies #[trigger] be64_bytes(cur)[8 * prev.len() + k] == byte64(x, k) by {
                assert((8 * prev.len() + k) / 8 == prev.len());
                assert((8 * prev.len() + k) % 8 == k);
            }
            assert(be64_bytes(cur) =~= be64_bytes(prev) + seq![byte64(x, 0), byte64(x, 1), byte64(x, 2), byte64(x, 3), byte64(x, 4), byte64(x, 5), byte64(x, 6), byte64(x, 7)]);
        }
    }
    assert(s@.take(i as int) =~= s@);
}

/// The values of `b[start .. start + n]`, read from consecutive groups of
/// 8 big-endian bytes.
pub fn read_u64s(b: &Vec<u8>, start: usize, n: usize) -> (r: Vec<u64>)
    requires
        start + n <= b.len(),
        n % 8 == 0,
    ensures
        r@ == be64_values(b@.subrange(start as int, start + n)),
{
    let ghost sub = b@.subrange(start as int, start + n);
    let mut r: Vec<u64> = Vec::new();
    let mut i: usize = 0;
    while i < n / 8
        invariant
            i <= n / 8,
            start + n <= b.len(),
            n % 8 == 0,
            sub == b@.subrange(start as int, start + n),
            r@ =~= be64_values(b@.subrange(start as int, start + n)).take(i as int),
        decreases n / 8 - i,
    {
        assert(8 * i + 8 <= n);
        let p = start + 8 * i;
        let x: u64 = ((b[p] as u64) << 56u64) | ((b[p + 1] as u64) << 48u64) | ((b[p + 2] as u64) << 40u64) | ((b[p + 3] as u64) << 32u64) | ((b[p + 4] as u64) << 24u64) | ((b[p + 5] as u64) << 16u64) | ((b[p + 6] as u64) << 8u64) | (b[p + 7] as u64);
        proof {
            assert(x == u64_of(sub[8 * i], sub[8 * i + 1], sub[8 * i + 2], sub[8 * i + 3], sub[8 * i + 4], sub[8 * i + 5], sub[8 * i + 6], sub[8 * i + 7]));
        }
        r.push(x);
        i = i + 1;
    }
    r
}

/// Appends the big-endian bytes of each value.
pub fn push_i64s(out: &mut Vec<u8>, s: &Vec<i64>)
    ensures
        final(out)@ == old(out)@ + be64_bytes(i64s_as_u64s(s@)),
{
    let ghost start = out@;
    let mut i: usize = 0;
    while i < s.len()
        invariant
            i <= s.len(),
            out@ == start + be64_bytes(i64s_as_u64s(s@.take(i as int))),
        decreases s.len() - i,
    {
        let x: u64 = s[i] as u64;
        out.push((x >> 56u64) as u8);
        out.push((x >> 48u64) as u8);
        out.push((x >> 40u64) as u8);
        out.push((x >> 32u64) as u8);
        out.push((x >> 24u64) as u8);
        out.push((x >> 16u64) as u8);
        out.push((x >> 8u64) as u8);
        out.push(x as u8);
        i = i + 1;
        proof {
            let prev = i64s_as_u64s(s@.take(i - 1));
            let cur = i64s_as_u64s(s@.take(i as int));
            assert(cur =~= prev.push(x));
            assert forall|j: int| 0 <= j < 8 * prev.len() implies #[trigger] be64_bytes(cur)[j] == be64_bytes(prev)[j] by {
                assert(j / 8 < prev.len());
            }
            assert forall|k: int| 0 <= k < 8 implies #[trigger] be64_bytes(cur)[8 * prev.len() + k] == byte64(x, k) by {
                assert((8 * prev.len() + k) / 8 == prev.len());
                assert((8 * prev.len() + k) % 8 == k);
            }
            assert(be64_bytes(cur) =~= be64_bytes(prev) + seq![byte64(x, 0), byte64(x, 1), byte64(x, 2), byte64(x, 3), byte64(x, 4), byte64(x, 5), byte64(x, 6), byte64(x, 7)]);
        }
    }
    assert(s@.take(i as int) =~= s@);
}

/// The values of `b[start .. start + n]`, read from consecutive groups of
/// 8 big-endian bytes.
pub fn read_i64s(b: &Vec<u8>, start: usize, n: usize) -> (r: Vec<i64>)
    requires
        start + n <= b.len(),
        n % 8 == 0,
    ensures
        r@ == u64s_as_i64s(be64_values(b@.subrange(start as int, start + n))),
{
    let ghost sub = b@.subrange(start as int, start + n);
    let mut r: Vec<i64> = Vec::new();
    let mut i: usize = 0;
    while i < n / 8
        invariant
            i <= n / 8,
            start + n <= b.len(),
            n % 8 == 0,
            sub == b@.subrange(start as int, start + n),
            r@ =~= u64s_as_i64s(be64_values(b@.subrange(start as int, start + n))).take(i as int),
        decreases n / 8 - i,
    {
        assert(8 * i + 8 <= n);
        let p = start + 8 * i;
        let x: u64 = ((b[p] as u64) << 56u64) | ((b[p + 1] as u64) << 48u64) | ((b[p + 2] as u64) << 40u64) | ((b[p + 3] as u64) << 32u64) | ((b[p + 4] as u64) << 24u64) | ((b[p + 5] as u64) << 16u64) | ((b[p + 6] as u64) << 8u64) | (b[p + 7] as u64);
        proof {
            assert(x == u64_of(sub[8 * i], sub[8 * i + 1], sub[8 * i + 2], sub[8 * i + 3], sub[8 * i + 4], sub[8 * i + 5], sub[8 * i + 6], sub[8 * i + 7]));
        }
        r.push(x as i64);
        i = i + 1;
    }
    r
}

} // verus!
