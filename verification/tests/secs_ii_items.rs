use semi::secs_ii::{Error, Item, LocalizedStringHeader};

fn decoded(bytes: Vec<u8>) -> Item {
    match Item::try_from_bytes(bytes) {
        Ok(item) => item,
        Err(e) => panic!("decoding failed: {:?}", e),
    }
}

#[test]
fn encodes_empty_list() {
    assert_eq!(Item::List(vec![]).into_bytes(), vec![0x01, 0x00]);
}

#[test]
fn encodes_binary() {
    assert_eq!(Item::Binary(vec![1, 2]).into_bytes(), vec![0x21, 0x02, 0x01, 0x02]);
}

#[test]
fn encodes_boolean() {
    assert_eq!(Item::Boolean(vec![true, false]).into_bytes(), vec![0x25, 0x02, 0x00, 0x01]);
}

#[test]
fn encodes_ascii() {
    assert_eq!(Item::Ascii(b"AB".to_vec()).into_bytes(), vec![0x41, 0x02, 0x41, 0x42]);
}

#[test]
fn encodes_unsigned_items_big_endian() {
    assert_eq!(Item::Unsigned1(vec![5]).into_bytes(), vec![0xA5, 0x01, 0x05]);
    assert_eq!(Item::Unsigned2(vec![0x0102]).into_bytes(), vec![0xA9, 0x02, 0x01, 0x02]);
    assert_eq!(
        Item::Unsigned4(vec![0x01020304]).into_bytes(),
        vec![0xB1, 0x04, 0x01, 0x02, 0x03, 0x04]
    );
    assert_eq!(
        Item::Unsigned8(vec![0x0102030405060708]).into_bytes(),
        vec![0xA1, 0x08, 0x01, 0x02, 0x03, 0x04, 0x05, 0x06, 0x07, 0x08]
    );
}

#[test]
fn encodes_signed_items_in_twos_complement() {
    assert_eq!(Item::Signed1(vec![-1]).into_bytes(), vec![0x65, 0x01, 0xFF]);
    assert_eq!(Item::Signed2(vec![-2]).into_bytes(), vec![0x69, 0x02, 0xFF, 0xFE]);
    assert_eq!(Item::Signed4(vec![-1]).into_bytes(), vec![0x71, 0x04, 0xFF, 0xFF, 0xFF, 0xFF]);
    assert_eq!(
        Item::Signed8(vec![1]).into_bytes(),
        vec![0x61, 0x08, 0, 0, 0, 0, 0, 0, 0, 0x01]
    );
}

#[test]
fn encodes_floats_by_bit_pattern() {
    assert_eq!(
        Item::Float4(vec![1.0f32.to_bits()]).into_bytes(),
        vec![0x91, 0x04, 0x3F, 0x80, 0x00, 0x00]
    );
    assert_eq!(
        Item::Float8(vec![1.0f64.to_bits()]).into_bytes(),
        vec![0x81, 0x08, 0x3F, 0xF0, 0, 0, 0, 0, 0, 0]
    );
}

#[test]
fn encodes_nested_list() {
    let item = Item::List(vec![Item::Unsigned1(vec![1]), Item::List(vec![])]);
    assert_eq!(item.into_bytes(), vec![0x01, 0x02, 0xA5, 0x01, 0x01, 0x01, 0x00]);
}

#[test]
fn encodes_two_and_three_length_bytes() {
    let two = Item::Binary(vec![7; 256]).into_bytes();
    assert_eq!(two.len(), 3 + 256);
    assert_eq!(&two[0..3], &[0x22, 0x01, 0x00]);
    let three = Item::Binary(vec![7; 0x10000]).into_bytes();
    assert_eq!(three.len(), 4 + 0x10000);
    assert_eq!(&three[0..4], &[0x23, 0x01, 0x00, 0x00]);
}

#[test]
fn decodes_unsigned2() {
    match decoded(vec![0xA9, 0x04, 0x01, 0x02, 0xFF, 0xFE]) {
        Item::Unsigned2(v) => assert_eq!(v, vec![0x0102, 0xFFFE]),
        other => panic!("unexpected item {:?}", other),
    }
}

#[test]
fn decodes_signed_and_float_items() {
    match decoded(vec![0x69, 0x02, 0xFF, 0xFE]) {
        Item::Signed2(v) => assert_eq!(v, vec![-2]),
        other => panic!("unexpected item {:?}", other),
    }
    match decoded(vec![0x91, 0x04, 0x40, 0x00, 0x00, 0x00]) {
        Item::Float4(v) => assert_eq!(f32::from_bits(v[0]), 2.0f32),
        other => panic!("unexpected item {:?}", other),
    }
}

#[test]
fn decodes_zero_as_true_and_nonzero_as_false() {
    match decoded(vec![0x25, 0x03, 0x00, 0x01, 0x7F]) {
        Item::Boolean(v) => assert_eq!(v, vec![true, false, false]),
        other => panic!("unexpected item {:?}", other),
    }
}

#[test]
fn decodes_nested_list() {
    match decoded(vec![0x01, 0x02, 0x41, 0x01, 0x58, 0x01, 0x00]) {
        Item::List(items) => {
            assert_eq!(items.len(), 2);
            assert!(matches!(&items[0], Item::Ascii(s) if s == &vec![0x58u8]));
            assert!(matches!(&items[1], Item::List(l) if l.is_empty()));
        }
        other => panic!("unexpected item {:?}", other),
    }
}

#[test]
fn decoding_an_encoding_gives_the_item_back() {
    let item = Item::List(vec![
        Item::Ascii(b"MODEL".to_vec()),
        Item::Unsigned4(vec![1, 2, 3]),
        Item::List(vec![Item::Boolean(vec![true]), Item::Signed8(vec![-5, 5])]),
        Item::Float8(vec![2.5f64.to_bits()]),
    ]);
    let bytes = item.into_bytes();
    let again = decoded(bytes.clone());
    assert_eq!(again.into_bytes(), bytes);
}

#[test]
fn refuses_empty_input() {
    assert_eq!(Item::try_from_bytes(vec![]).err(), Some(Error::WrongFormat));
}

#[test]
fn refuses_trailing_bytes() {
    assert_eq!(Item::try_from_bytes(vec![0x01, 0x00, 0x00]).err(), Some(Error::WrongFormat));
}

#[test]
fn refuses_truncated_body() {
    assert_eq!(Item::try_from_bytes(vec![0x21, 0x03, 0x01]).err(), Some(Error::WrongFormat));
}

#[test]
fn refuses_missing_list_elements() {
    assert_eq!(Item::try_from_bytes(vec![0x01, 0x02, 0x01, 0x00]).err(), Some(Error::WrongFormat));
}

#[test]
fn refuses_zero_length_bytes() {
    assert_eq!(Item::try_from_bytes(vec![0x20, 0x00]).err(), Some(Error::WrongFormat));
}

#[test]
fn refuses_non_ascii_characters() {
    assert_eq!(Item::try_from_bytes(vec![0x41, 0x01, 0x80]).err(), Some(Error::WrongFormat));
}

#[test]
fn refuses_partial_values() {
    assert_eq!(Item::try_from_bytes(vec![0xA9, 0x03, 0, 1, 2]).err(), Some(Error::WrongFormat));
    assert_eq!(Item::try_from_bytes(vec![0xB1, 0x02, 0, 1]).err(), Some(Error::WrongFormat));
}

#[test]
fn refuses_unknown_format_codes() {
    assert_eq!(Item::try_from_bytes(vec![0xFD, 0x00]).err(), Some(Error::WrongFormat));
    assert_eq!(Item::try_from_bytes(vec![0x45, 0x01, 0x41]).err(), Some(Error::WrongFormat));
}

#[test]
fn localized_string_header_codes() {
    assert_eq!(LocalizedStringHeader::Ucs2.code(), 1);
    assert_eq!(LocalizedStringHeader::Utf8.code(), 2);
    assert_eq!(LocalizedStringHeader::ShiftJis.code(), 8);
    assert_eq!(LocalizedStringHeader::EucTw.code(), 14);
}

#[test]
fn decodes_list_of_one_unsigned4() {
    match decoded(vec![1, 1, 177, 4, 0, 0, 7, 237]) {
        Item::List(items) => {
            assert_eq!(items.len(), 1);
            assert!(matches!(&items[0], Item::Unsigned4(v) if v == &vec![2029u32]));
        }
        other => panic!("unexpected item {:?}", other),
    }
}

#[test]
fn decoded_items_encode_again() {
    let bytes = vec![0x01, 0x01, 0x22, 0x00, 0x02, 0x05, 0x06];
    let item = decoded(bytes);
    assert_eq!(item.into_bytes(), vec![0x01, 0x01, 0x21, 0x02, 0x05, 0x06]);
}

#[test]
fn short_list_is_count_then_elements() {
    let item = Item::List(vec![Item::Boolean(vec![false]), Item::Unsigned1(vec![3])]);
    assert_eq!(item.into_bytes(), vec![0x01, 0x02, 0x25, 0x01, 0x01, 0xA5, 0x01, 0x03]);
}
