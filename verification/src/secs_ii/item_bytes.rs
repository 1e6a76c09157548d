//! Executable encoding and parsing of whole items.
use vstd::prelude::*;
use crate::secs_ii::{Item, ItemV, items_view};
use crate::secs_ii::codec::{
    body, decode, encode, encode_list, format_code, header, lemma_wf_list, length_value, parse,
    parse_body, parse_list, wf, wf_list, i64s_as_u64s, i16s_as_u16s, i32s_as_u32s, be16_bytes,
    be32_bytes, be64_bytes, bools_bytes, i8s_as_u8s,
};
use crate::secs_ii::bytes::{
    check_ascii, copy_bytes, push_bools, push_header, push_i16s, push_i32s, push_i64s, push_i8s,
    push_u16s, push_u32s, push_u64s, push_u8s, read_bools, read_i16s, read_i32s, read_i64s,
    read_i8s, read_u16s, read_u32s, read_u64s,
};

verus! {

/// The values of a sequence of items, element by element.
pub proof fn lemma_items_view(s: Seq<Item>)
    ensures
        items_view(s).len() == s.len(),
        forall|i: int| 0 <= i < s.len() ==> #[trigger] items_view(s)[i] == s[i]@,
    decreases s.len(),
{
    if s.len() > 0 {
        lemma_items_view(s.drop_last());
        assert(items_view(s) == items_view(s.drop_last()).push(s.last()@));
    } else {
        assert(items_view(s) == Seq::<ItemV>::empty());
    }
}

/// Encoding one more item appends its encoding.
pub proof fn lemma_encode_list_push(s: Seq<ItemV>, x: ItemV)
    ensures
        encode_list(s.push(x)) == encode_list(s) + encode(x),
    decreases s.len(),
{
    if s.len() == 0 {
        assert(s.push(x).drop_first() =~= Seq::<ItemV>::empty());
        assert(encode_list(s.push(x)) =~= encode(x) + encode_list(Seq::<ItemV>::empty()));
        assert(encode_list(s) + encode(x) =~= encode(x));
    } else {
        lemma_encode_list_push(s.drop_first(), x);
        assert(s.push(x).drop_first() =~= s.drop_first().push(x));
        assert(encode_list(s.push(x)) =~= encode(s[0]) + encode_list(s.drop_first().push(x)));
        assert(encode_list(s.push(x)) =~= encode_list(s) + encode(x));
    }
}

/// Appends the encoding of a well-formed item.
pub fn encode_item(item: &Item, out: &mut Vec<u8>)
    requires
        wf(item@),
    ensures
        final(out)@ == old(out)@ + encode(item@),
    decreases item,
{
    let ghost start = out@;
    proof {
        assert(body(item@).len() < 0x100_0000 || item@ is List);
    }
    match item {
        Item::List(v) => {
            proof {
                lemma_items_view(v@);
                lemma_wf_list(items_view(v@));
            }
            push_header(out, 0, v.len());
            let ghost prefix = out@;
            let mut i: usize = 0;
            while i < v.len()
                invariant
                    i <= v.len(),
                    *item == Item::List(*v),
                    items_view(v@).len() == v@.len(),
                    forall|j: int| 0 <= j < v@.len() ==> #[trigger] items_view(v@)[j] == v@[j]@,
                    forall|j: int| 0 <= j < v@.len() ==> #[trigger] wf(items_view(v@)[j]),
                    out@ == prefix + encode_list(items_view(v@).take(i as int)),
                decreases v.len() - i,
            {
                assert(wf(v@[i as int]@)) by {
                    assert(wf(items_view(v@)[i as int]));
                }
                proof {
                    assert(decreases_to!(v => v[i as int]));
                    assert(decreases_to!(*item => (*item)->List_0));
                    assert(decreases_to!(*item => v[i as int]));
                }
                encode_item(&v[i], out);
                proof {
                    let ghost s = items_view(v@);
                    assert(s.take(i + 1) =~= s.take(i as int).push(v@[i as int]@));
                    lemma_encode_list_push(s.take(i as int), v@[i as int]@);
                }
                i = i + 1;
            }
            proof {
                assert(items_view(v@).take(i as int) =~= items_view(v@));
                assert(out@ =~= start + encode(item@));
            }
        },
        Item::Binary(v) => {
            push_header(out, 0o10, v.len());
            push_u8s(out, v);
            assert(out@ =~= start + encode(item@));
        },
        Item::Boolean(v) => {
            push_header(out, 0o11, v.len());
            push_bools(out, v);
            assert(out@ =~= start + encode(item@));
        },
        Item::Ascii(v) => {
            push_header(out, 0o20, v.len());
            push_u8s(out, v);
            assert(out@ =~= start + encode(item@));
        },
        Item::Jis8(_) => {
            assert(false);
        },
        Item::Localized(_, _) => {
            assert(false);
        },
        Item::Signed8(v) => {
            push_header(out, 0o30, v.len() * 8);
            push_i64s(out, v);
            assert(out@ =~= start + encode(item@));
        },
        Item::Signed1(v) => {
            push_header(out, 0o31, v.len());
            push_i8s(out, v);
            assert(out@ =~= start + encode(item@));
        },
        Item::Signed2(v) => {
            push_header(out, 0o32, v.len() * 2);
            push_i16s(out, v);
            assert(out@ =~= start + encode(item@));
        },
        Item::Signed4(v) => {
            push_header(out, 0o34, v.len() * 4);
            push_i32s(out, v);
            assert(out@ =~= start + encode(item@));
        },
        Item::Float8(v) => {
            push_header(out, 0o40, v.len() * 8);
            push_u64s(out, v);
            assert(out@ =~= start + encode(item@));
        },
        Item::Float4(v) => {
            push_header(out, 0o44, v.len() * 4);
            push_u32s(out, v);
            assert(out@ =~= start + encode(item@));
        },
        Item::Unsigned8(v) => {
            push_header(out, 0o50, v.len() * 8);
            push_u64s(out, v);
            assert(out@ =~= start + encode(item@));
        },
        Item::Unsigned1(v) => {
            push_header(out, 0o51, v.len());
            push_u8s(out, v);
            assert(out@ =~= start + encode(item@));
        },
        Item::Unsigned2(v) => {
            push_header(out, 0o52, v.len() * 2);
            push_u16s(out, v);
            assert(out@ =~= start + encode(item@));
        },
        Item::Unsigned4(v) => {
            push_header(out, 0o54, v.len() * 4);
            push_u32s(out, v);
            assert(out@ =~= start + encode(item@));
        },
    }
}

/// Whether an item has an encoding: no JIS-8 or localized string, ASCII of
/// character codes only, and every item length below 2^24.
pub fn encodable(item: &Item) -> (r: bool)
    ensures
        r == wf(item@),
    decreases item,
{
    match item {
        Item::List(v) => {
            proof {
                lemma_items_view(v@);
                lemma_wf_list(items_view(v@));
            }
            if v.len() >= 0x100_0000 {
                return false;
            }
            let mut i: usize = 0;
            while i < v.len()
                invariant
                    i <= v.len(),
                    *item == Item::List(*v),
                    items_view(v@).len() == v@.len(),
                    forall|j: int| 0 <= j < v@.len() ==> #[trigger] items_view(v@)[j] == v@[j]@,
                    forall|j: int| 0 <= j < i ==> #[trigger] wf(items_view(v@)[j]),
                    wf(item@) == (forall|j: int| 0 <= j < v@.len() ==> #[trigger] wf(items_view(v@)[j])),
                decreases v.len() - i,
            {
                proof {
                    assert(decreases_to!(v => v[i as int]));
                    assert(decreases_to!(*item => (*item)->List_0));
                    assert(decreases_to!(*item => v[i as int]));
                }
                if !encodable(&v[i]) {
                    assert(!wf(items_view(v@)[i as int]));
                    return false;
                }
                i = i + 1;
            }
            true
        },
        Item::Jis8(_) => false,
        Item::Localized(_, _) => false,
        Item::Ascii(v) => {
            assert(v@.subrange(0, v@.len() as int) =~= v@);
            v.len() < 0x100_0000 && check_ascii(v, 0, v.len())
        },
        Item::Binary(v) => v.len() < 0x100_0000,
        Item::Boolean(v) => v.len() < 0x100_0000,
        Item::Signed1(v) => v.len() < 0x100_0000,
        Item::Unsigned1(v) => v.len() < 0x100_0000,
        Item::Signed2(v) => v.len() < 0x80_0000,
        Item::Unsigned2(v) => v.len() < 0x80_0000,
        Item::Signed4(v) => v.len() < 0x40_0000,
        Item::Unsigned4(v) => v.len() < 0x40_0000,
        Item::Float4(v) => v.len() < 0x40_0000,
        Item::Signed8(v) => v.len() < 0x20_0000,
        Item::Unsigned8(v) => v.len() < 0x20_0000,
        Item::Float8(v) => v.len() < 0x20_0000,
    }
}

/// The non-list item with format code `code` whose body is
/// `b[start .. start + n]`, if the body suits the format.
pub fn decode_body(code: u8, b: &Vec<u8>, start: usize, n: usize) -> (r: Option<Item>)
    requires
        start + n <= b.len(),
    ensures
        match r {
            Some(item) => parse_body(code, b@.subrange(start as int, start + n)) == Some(item@),
            None => parse_body(code, b@.subrange(start as int, start + n)) is None,
        },
{
    if code == 0o10 {
        Some(Item::Binary(copy_bytes(b, start, n)))
    } else if code == 0o11 {
        Some(Item::Boolean(read_bools(b, start, n)))
    } else if code == 0o20 {
        if check_ascii(b, start, n) {
            Some(Item::Ascii(copy_bytes(b, start, n)))
        } else {
            None
        }
    } else if code == 0o30 {
        if n % 8 == 0 {
            Some(Item::Signed8(read_i64s(b, start, n)))
        } else {
            None
        }
    } else if code == 0o31 {
        Some(Item::Signed1(read_i8s(b, start, n)))
    } else if code == 0o32 {
        if n % 2 == 0 {
            Some(Item::Signed2(read_i16s(b, start, n)))
        } else {
            None
        }
    } else if code == 0o34 {
        if n % 4 == 0 {
            Some(Item::Signed4(read_i32s(b, start, n)))
        } else {
            None
        }
    } else if code == 0o40 {
        if n % 8 == 0 {
            Some(Item::Float8(read_u64s(b, start, n)))
        } else {
            None
        }
    } else if code == 0o44 {
        if n % 4 == 0 {
            Some(Item::Float4(read_u32s(b, start, n)))
        } else {
            None
        }
    } else if code == 0o50 {
        if n % 8 == 0 {
            Some(Item::Unsigned8(read_u64s(b, start, n)))
        } else {
            None
        }
    } else if code == 0o51 {
        Some(Item::Unsigned1(copy_bytes(b, start, n)))
    } else if code == 0o52 {
        if n % 2 == 0 {
            Some(Item::Unsigned2(read_u16s(b, start, n)))
        } else {
            None
        }
    } else if code == 0o54 {
        if n % 4 == 0 {
            Some(Item::Unsigned4(read_u32s(b, start, n)))
        } else {
            None
        }
    } else {
        None
    }
}

/// Parses the item that starts at `b[pos]`; gives it and the index just
/// past it.
pub fn parse_item_at(b: &Vec<u8>, pos: usize) -> (r: Option<(Item, usize)>)
    requires
        pos <= b.len(),
    ensures
        match r {
            Some((item, end)) => pos < end <= b.len() && parse(b@.skip(pos as int)) == Some(
                (item@, end - pos),
            ),
            None => parse(b@.skip(pos as int)) is None,
        },
    decreases b.len() - pos,
{
    let ghost bs = b@.skip(pos as int);
    if pos >= b.len() {
        return None;
    }
    let fb = b[pos];
    let code = fb / 4;
    let nlen = (fb % 4) as usize;
    if nlen == 0 || b.len() - pos < 1 + nlen {
        return None;
    }
    let n: usize = if nlen == 1 {
        b[pos + 1] as usize
    } else if nlen == 2 {
        (b[pos + 1] as usize) * 0x100 + (b[pos + 2] as usize)
    } else {
        (b[pos + 1] as usize) * 0x1_0000 + (b[pos + 2] as usize) * 0x100 + (b[pos + 3] as usize)
    };
    let start = pos + 1 + nlen;
    proof {
        assert(bs[0] == fb);
        assert(n == length_value(bs, nlen as int));
        assert(bs.skip(1 + nlen) =~= b@.skip(start as int));
    }
    if code == 0 {
        let mut items: Vec<Item> = Vec::new();
        let mut p: usize = start;
        let mut i: usize = 0;
        proof {
            lemma_items_view(items@);
            assert(items_view(items@) + Seq::<ItemV>::empty() =~= Seq::<ItemV>::empty());
        }
        assert(parse(bs) == match parse_list(b@.skip(start as int), n as nat) {
            Some((t, k)) => Some((ItemV::List(t), (start - pos) + k)),
            None => None,
        });
        while i < n
            invariant
                pos < start <= p <= b.len(),
                parse(b@.skip(pos as int)) == match parse_list(b@.skip(start as int), n as nat) {
                    Some((t, k)) => Some((ItemV::List(t), (start - pos) + k)),
                    None => None,
                },
                i <= n,
                parse_list(b@.skip(start as int), n as nat) == match parse_list(
                    b@.skip(p as int),
                    (n - i) as nat,
                ) {
                    Some((t, k)) => Some((items_view(items@) + t, (p - start) + k)),
                    None => None,
                },
            decreases n - i,
        {
            match parse_item_at(b, p) {
                Some((item, e)) => {
                    proof {
                        let ghost bp = b@.skip(p as int);
                        assert(bp.skip(e - p) =~= b@.skip(e as int));
                        let ghost old_items = items@;
                        assert(items_view(old_items.push(item)) == items_view(old_items).push(
                            item@,
                        )) by {
                            assert(old_items.push(item).drop_last() =~= old_items);
                        }
                        match parse_list(b@.skip(e as int), (n - i - 1) as nat) {
                            Some((t, k)) => {
                                assert(items_view(old_items).push(item@) + t =~= items_view(
                                    old_items,
                                ) + (seq![item@] + t));
                            },
                            None => {},
                        }
                    }
                    items.push(item);
                    p = e;
                },
                None => {
                    return None;
                },
            }
            i = i + 1;
        }
        proof {
            assert(items_view(items@) + Seq::<ItemV>::empty() =~= items_view(items@));
        }
        return Some((Item::List(items), p));
    }
    if b.len() - start < n {
        return None;
    }
    proof {
        assert(bs.subrange(1 + nlen, 1 + nlen + n) =~= b@.subrange(start as int, start + n));
    }
    match decode_body(code, b, start, n) {
        Some(item) => Some((item, start + n)),
        None => None,
    }
}

/// Decodes bytes that hold exactly one item.
pub fn decode_item(b: &Vec<u8>) -> (r: Option<Item>)
    ensures
        match r {
            Some(item) => decode(b@) == Some(item@),
            None => decode(b@) is None,
        },
{
    proof {
        assert(b@.skip(0) =~= b@);
    }
    match parse_item_at(b, 0) {
        Some((item, end)) => if end == b.len() {
            Some(item)
        } else {
            None
        },
        None => None,
    }
}

} // verus!
