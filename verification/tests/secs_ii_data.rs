use semi::secs_ii::items::{
    AlarmCode, AnyBinaryString, CommAck, ErrorCode, ModelName, OffLineAcknowledge,
    OnLineAcknowledge, SoftwareRevision, StatusFormCode, StatusVariableID, StatusVariableName,
    StatusVariableValue, TransferStatusInputPort, TransferStatusOutputPort, Units,
};
use semi::secs_ii::{DataItem, Error, Item, OptionList, VecList};

#[test]
fn alarm_code_is_one_binary_byte() {
    let item = AlarmCode(0x85).into_item();
    assert!(matches!(&item, Item::Binary(v) if v == &vec![0x85u8]));
    assert_eq!(AlarmCode::try_from_item(item).unwrap().0, 0x85);
    assert_eq!(AlarmCode::try_from_item(Item::Binary(vec![1, 2])).err(), Some(Error::WrongFormat));
    assert_eq!(AlarmCode::try_from_item(Item::Unsigned1(vec![1])).err(), Some(Error::WrongFormat));
}

#[test]
fn status_form_code_is_one_binary_byte() {
    let item = StatusFormCode(3).into_item();
    assert!(matches!(&item, Item::Binary(v) if v == &vec![3u8]));
    assert_eq!(StatusFormCode::try_from_item(item).unwrap().0, 3);
    assert_eq!(StatusFormCode::try_from_item(Item::Binary(vec![])).err(), Some(Error::WrongFormat));
}

#[test]
fn any_binary_string_takes_any_length() {
    let s = AnyBinaryString::new(vec![1, 2, 3]).unwrap();
    assert!(matches!(s.into_item(), Item::Binary(v) if v == vec![1u8, 2, 3]));
    assert!(AnyBinaryString::new(vec![]).is_some());
    assert!(AnyBinaryString::try_from_item(Item::Binary(vec![9; 100])).is_ok());
    assert_eq!(AnyBinaryString::try_from_item(Item::Ascii(vec![65])).err(), Some(Error::WrongFormat));
}

#[test]
fn model_name_holds_at_most_twenty_ascii_characters() {
    assert!(ModelName::new(vec![b'A'; 20]).is_some());
    assert!(ModelName::new(vec![b'A'; 21]).is_none());
    assert!(ModelName::new(vec![0x80]).is_none());
    let item = ModelName::new(b"SEMI".to_vec()).unwrap().into_item();
    assert!(matches!(&item, Item::Ascii(v) if v == &b"SEMI".to_vec()));
    assert!(ModelName::try_from_item(item).is_ok());
    assert_eq!(ModelName::try_from_item(Item::Ascii(vec![b'A'; 21])).err(), Some(Error::WrongFormat));
    assert_eq!(ModelName::try_from_item(Item::Binary(vec![])).err(), Some(Error::WrongFormat));
}

#[test]
fn software_revision_holds_at_most_twenty_ascii_characters() {
    assert!(SoftwareRevision::new(b"1.0.0".to_vec()).is_some());
    assert!(SoftwareRevision::new(vec![b'1'; 21]).is_none());
    assert!(SoftwareRevision::try_from_item(Item::Ascii(b"2.1".to_vec())).is_ok());
    assert_eq!(
        SoftwareRevision::try_from_item(Item::Ascii(vec![b'1'; 25])).err(),
        Some(Error::WrongFormat)
    );
}

#[test]
fn names_and_units_are_ascii() {
    assert!(matches!(StatusVariableName(b"TEMP".to_vec()).into_item(), Item::Ascii(v) if v == b"TEMP".to_vec()));
    assert!(matches!(Units(b"degC".to_vec()).into_item(), Item::Ascii(v) if v == b"degC".to_vec()));
    assert_eq!(StatusVariableName::try_from_item(Item::Binary(vec![])).err(), Some(Error::WrongFormat));
    assert_eq!(Units::try_from_item(Item::Unsigned1(vec![])).err(), Some(Error::WrongFormat));
    assert_eq!(Units::try_from_item(Item::Ascii(b"mm".to_vec())).unwrap().0, b"mm".to_vec());
}

#[test]
fn enumerated_codes() {
    assert_eq!(CommAck::Accepted.code(), 0);
    assert_eq!(CommAck::Denied.code(), 1);
    assert_eq!(CommAck::from_code(1), Some(CommAck::Denied));
    assert_eq!(CommAck::from_code(2), None);
    assert_eq!(OffLineAcknowledge::Acknowledge.code(), 0);
    assert_eq!(OffLineAcknowledge::from_code(1), None);
    assert_eq!(OnLineAcknowledge::AlreadyOnLine.code(), 2);
    assert_eq!(OnLineAcknowledge::from_code(1), Some(OnLineAcknowledge::NotAllowed));
    assert_eq!(TransferStatusInputPort::Idle.code(), 1);
    assert_eq!(TransferStatusInputPort::from_code(0), None);
    assert_eq!(TransferStatusInputPort::from_code(4), Some(TransferStatusInputPort::StuckInReceiver));
    assert_eq!(TransferStatusOutputPort::Completed.code(), 5);
    assert_eq!(TransferStatusOutputPort::from_code(6), None);
}

#[test]
fn enumerated_values_are_one_binary_byte() {
    assert!(matches!(OnLineAcknowledge::NotAllowed.into_item(), Item::Binary(v) if v == vec![1u8]));
    assert_eq!(CommAck::try_from_item(Item::Binary(vec![0])).unwrap(), CommAck::Accepted);
    assert_eq!(CommAck::try_from_item(Item::Binary(vec![7])).err(), Some(Error::WrongFormat));
    assert_eq!(CommAck::try_from_item(Item::Binary(vec![0, 0])).err(), Some(Error::WrongFormat));
    assert_eq!(
        TransferStatusOutputPort::try_from_item(Item::Binary(vec![3])).unwrap(),
        TransferStatusOutputPort::TrackOn
    );
}

#[test]
fn error_codes() {
    assert_eq!(ErrorCode::NoError.code(), 0);
    assert_eq!(ErrorCode::MissingCarrier.code(), 50);
    assert_eq!(ErrorCode::ActionWillBePerformed.code(), 32768);
    assert_eq!(ErrorCode::TransferCancelled.code(), 32784);
}

#[test]
fn status_variable_id_takes_one_integer_or_byte() {
    let item = StatusVariableID::Unsigned4(0x01020304).into_item();
    assert!(matches!(&item, Item::Unsigned4(v) if v == &vec![0x01020304u32]));
    assert_eq!(StatusVariableID::try_from_item(item).unwrap(), StatusVariableID::Unsigned4(0x01020304));
    assert_eq!(StatusVariableID::try_from_item(Item::Signed2(vec![-3])).unwrap(), StatusVariableID::Signed2(-3));
    assert_eq!(StatusVariableID::try_from_item(Item::Unsigned2(vec![1, 2])).err(), Some(Error::WrongFormat));
    assert_eq!(StatusVariableID::try_from_item(Item::Ascii(vec![65])).err(), Some(Error::WrongFormat));
}

#[test]
fn status_variable_value_takes_any_format_but_localized() {
    assert!(matches!(
        StatusVariableValue::try_from_item(Item::Float8(vec![1.5f64.to_bits()])),
        Ok(StatusVariableValue::Float8(v)) if v == vec![1.5f64.to_bits()]
    ));
    assert!(matches!(
        StatusVariableValue::try_from_item(Item::List(vec![])),
        Ok(StatusVariableValue::List(v)) if v.is_empty()
    ));
    assert_eq!(
        StatusVariableValue::try_from_item(Item::Localized(1, vec![0x41])).err(),
        Some(Error::WrongFormat)
    );
    assert!(matches!(StatusVariableValue::Boolean(vec![true]).into_item(), Item::Boolean(v) if v == vec![true]));
}

#[test]
fn vec_list_converts_each_element() {
    let list = VecList(vec![StatusVariableID::Unsigned1(1), StatusVariableID::Unsigned1(2)]);
    let item = list.into_item();
    assert_eq!(item.into_bytes(), vec![0x01, 0x02, 0xA5, 0x01, 0x01, 0xA5, 0x01, 0x02]);
    let back = VecList::<StatusVariableID>::try_from_item(Item::List(vec![
        Item::Unsigned2(vec![7]),
        Item::Binary(vec![8]),
    ]))
    .unwrap();
    assert_eq!(back.0, vec![StatusVariableID::Unsigned2(7), StatusVariableID::Binary(8)]);
    let bad = VecList::<StatusVariableID>::try_from_item(Item::List(vec![Item::Ascii(vec![65])]));
    assert_eq!(bad.err(), Some(Error::WrongFormat));
    assert_eq!(VecList::<StatusVariableID>::try_from_item(Item::Binary(vec![])).err(), Some(Error::WrongFormat));
}

#[test]
fn empty_tuple_is_an_empty_list() {
    assert!(matches!(().into_item(), Item::List(v) if v.is_empty()));
    assert!(<()>::try_from_item(Item::List(vec![])).is_ok());
    assert_eq!(<()>::try_from_item(Item::List(vec![Item::List(vec![])])).err(), Some(Error::WrongFormat));
}

#[test]
fn pairs_and_triples_are_lists_in_order() {
    let pair = (CommAck::Denied, AlarmCode(4)).into_item();
    assert_eq!(pair.into_bytes(), vec![0x01, 0x02, 0x21, 0x01, 0x01, 0x21, 0x01, 0x04]);
    let back = <(AlarmCode, CommAck)>::try_from_item(Item::List(vec![
        Item::Binary(vec![9]),
        Item::Binary(vec![0]),
    ]))
    .unwrap();
    assert_eq!(back.0 .0, 9);
    assert_eq!(back.1, CommAck::Accepted);
    let wrong_len = <(AlarmCode, CommAck)>::try_from_item(Item::List(vec![Item::Binary(vec![9])]));
    assert_eq!(wrong_len.err(), Some(Error::WrongFormat));
    let triple = <(StatusVariableID, StatusVariableName, Units)>::try_from_item(Item::List(vec![
        Item::Unsigned1(vec![1]),
        Item::Ascii(b"T".to_vec()),
        Item::Ascii(b"C".to_vec()),
    ]))
    .unwrap();
    assert_eq!(triple.0, StatusVariableID::Unsigned1(1));
    assert_eq!(triple.1 .0, b"T".to_vec());
    assert_eq!(triple.2 .0, b"C".to_vec());
}

#[test]
fn option_list_is_empty_or_the_list() {
    assert!(matches!(OptionList::<()>(None).into_item(), Item::List(v) if v.is_empty()));
    let some = OptionList(Some((AlarmCode(1), AlarmCode(2)))).into_item();
    assert_eq!(some.into_bytes(), vec![0x01, 0x02, 0x21, 0x01, 0x01, 0x21, 0x01, 0x02]);
    let none = OptionList::<(AlarmCode, AlarmCode)>::try_from_item(Item::List(vec![])).unwrap();
    assert!(none.0.is_none());
    let got = OptionList::<(AlarmCode, AlarmCode)>::try_from_item(Item::List(vec![
        Item::Binary(vec![5]),
        Item::Binary(vec![6]),
    ]))
    .unwrap();
    let (a, b) = got.0.unwrap();
    assert_eq!((a.0, b.0), (5, 6));
    assert_eq!(
        OptionList::<(AlarmCode, AlarmCode)>::try_from_item(Item::Binary(vec![])).err(),
        Some(Error::WrongFormat)
    );
}
