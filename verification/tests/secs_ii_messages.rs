use semi::secs_ii::items::{
    CommAck, ModelName, OffLineAcknowledge, OnLineAcknowledge, SoftwareRevision, StatusFormCode,
    StatusVariableID, StatusVariableName, Units,
};
use semi::secs_ii::messages::check_header;
use semi::secs_ii::messages::s1::{
    AreYouThere, EquipmentCRA, EquipmentOnLineData, FixedFormData, FixedFormRequest,
    FormattedStatusData, FormattedStatusRequest, HostCR, HostOnLineData,
    MaterialTransferStatusRequest, OffLineAck, OnLineAck, RequestOffLine, RequestOnLine,
    SelectedEquipmentStatusData, SelectedEquipmentStatusRequest, StatusVariableNamelistReply,
    StatusVariableNamelistRequest,
};
use semi::secs_ii::{Error, Item, Message, VecList};

fn msg(stream: u8, function: u8, w: bool, body: Option<Item>) -> Message {
    Message { stream, function, w, body }
}

#[test]
fn are_you_there_is_s1f1_with_reply() {
    let m = AreYouThere.into_message();
    assert_eq!((m.stream, m.function, m.w), (1, 1, true));
    assert!(m.body.is_none());
    assert!(AreYouThere::try_from_message(m).is_ok());
}

#[test]
fn header_errors_come_in_order_stream_function_reply() {
    assert_eq!(AreYouThere::try_from_message(msg(2, 2, false, None)).err(), Some(Error::WrongStream));
    assert_eq!(AreYouThere::try_from_message(msg(1, 2, false, None)).err(), Some(Error::WrongFunction));
    assert_eq!(AreYouThere::try_from_message(msg(1, 1, false, None)).err(), Some(Error::WrongReply));
    assert_eq!(
        AreYouThere::try_from_message(msg(1, 1, true, Some(Item::List(vec![])))).err(),
        Some(Error::WrongFormat)
    );
}

#[test]
fn check_header_accepts_matching_header() {
    let m = msg(1, 13, true, None);
    assert_eq!(check_header(&m, 1, 13, true), Ok(()));
    assert_eq!(check_header(&m, 1, 13, false), Err(Error::WrongReply));
}

#[test]
fn host_online_data_is_an_empty_list() {
    let m = HostOnLineData(()).into_message();
    assert_eq!((m.stream, m.function, m.w), (1, 2, false));
    assert!(matches!(&m.body, Some(Item::List(v)) if v.is_empty()));
    assert!(HostOnLineData::try_from_message(m).is_ok());
    assert_eq!(HostOnLineData::try_from_message(msg(1, 2, false, None)).err(), Some(Error::WrongFormat));
}

#[test]
fn equipment_online_data_carries_model_and_revision() {
    let data = (
        ModelName::new(b"TOOL".to_vec()).unwrap(),
        SoftwareRevision::new(b"1.2".to_vec()).unwrap(),
    );
    let m = EquipmentOnLineData(data).into_message();
    assert_eq!((m.stream, m.function, m.w), (1, 2, false));
    let body = m.body.unwrap();
    assert_eq!(
        body.into_bytes(),
        vec![0x01, 0x02, 0x41, 0x04, b'T', b'O', b'O', b'L', 0x41, 0x03, b'1', b'.', b'2']
    );
    let wrong = msg(1, 2, false, Some(Item::List(vec![Item::Ascii(vec![65])])));
    assert_eq!(EquipmentOnLineData::try_from_message(wrong).err(), Some(Error::WrongFormat));
}

#[test]
fn selected_equipment_status_request_lists_ids() {
    let m = SelectedEquipmentStatusRequest(VecList(vec![StatusVariableID::Unsigned2(10)])).into_message();
    assert_eq!((m.stream, m.function, m.w), (1, 3, true));
    let back = SelectedEquipmentStatusRequest::try_from_message(m).unwrap();
    assert_eq!(back.0 .0, vec![StatusVariableID::Unsigned2(10)]);
}

#[test]
fn selected_equipment_status_data_lists_values() {
    let body = Item::List(vec![Item::Unsigned1(vec![1]), Item::Ascii(b"ok".to_vec())]);
    let back = SelectedEquipmentStatusData::try_from_message(msg(1, 4, false, Some(body))).unwrap();
    assert_eq!(back.0 .0.len(), 2);
    let m = back.into_message();
    assert_eq!((m.stream, m.function, m.w), (1, 4, false));
}

#[test]
fn formatted_status_messages() {
    let m = FormattedStatusRequest(StatusFormCode(2)).into_message();
    assert_eq!((m.stream, m.function, m.w), (1, 5, true));
    assert_eq!(FormattedStatusRequest::try_from_message(m).unwrap().0 .0, 2);
    let d = FormattedStatusData(Item::Unsigned4(vec![9])).into_message();
    assert_eq!((d.stream, d.function, d.w), (1, 6, false));
    assert!(matches!(FormattedStatusData::try_from_message(d).unwrap().0, Item::Unsigned4(v) if v == vec![9]));
    assert_eq!(FormattedStatusData::try_from_message(msg(1, 6, false, None)).err(), Some(Error::WrongFormat));
}

#[test]
fn fixed_form_messages() {
    let m = FixedFormRequest(StatusFormCode(1)).into_message();
    assert_eq!((m.stream, m.function, m.w), (1, 7, true));
    let d = FixedFormData(Item::List(vec![])).into_message();
    assert_eq!((d.stream, d.function, d.w), (1, 8, false));
    assert!(FixedFormData::try_from_message(d).is_ok());
    assert_eq!(FixedFormRequest::try_from_message(msg(1, 7, true, Some(Item::Binary(vec![1, 2])))).err(), Some(Error::WrongFormat));
}

#[test]
fn material_transfer_status_request_is_s1f9() {
    let m = MaterialTransferStatusRequest.into_message();
    assert_eq!((m.stream, m.function, m.w), (1, 9, true));
    assert!(MaterialTransferStatusRequest::try_from_message(m).is_ok());
}

#[test]
fn status_variable_namelist_messages() {
    let m = StatusVariableNamelistRequest(VecList(vec![])).into_message();
    assert_eq!((m.stream, m.function, m.w), (1, 11, true));
    assert!(matches!(&m.body, Some(Item::List(v)) if v.is_empty()));
    let reply = StatusVariableNamelistReply(VecList(vec![(
        StatusVariableID::Unsigned1(1),
        StatusVariableName(b"T".to_vec()),
        Units(b"C".to_vec()),
    )]))
    .into_message();
    assert_eq!((reply.stream, reply.function, reply.w), (1, 12, false));
    assert_eq!(
        reply.body.unwrap().into_bytes(),
        vec![0x01, 0x01, 0x01, 0x03, 0xA5, 0x01, 0x01, 0x41, 0x01, b'T', 0x41, 0x01, b'C']
    );
}

#[test]
fn establish_communications_messages() {
    let cr = HostCR(()).into_message();
    assert_eq!((cr.stream, cr.function, cr.w), (1, 13, true));
    let cra = EquipmentCRA((
        CommAck::Accepted,
        (ModelName::new(b"M".to_vec()).unwrap(), SoftwareRevision::new(b"R".to_vec()).unwrap()),
    ))
    .into_message();
    assert_eq!((cra.stream, cra.function, cra.w), (1, 14, false));
    let back = EquipmentCRA::try_from_message(cra).unwrap();
    assert_eq!((back.0).0, CommAck::Accepted);
    assert_eq!(EquipmentCRA::try_from_message(msg(1, 14, true, None)).err(), Some(Error::WrongReply));
}

#[test]
fn offline_and_online_messages() {
    let r = RequestOffLine.into_message();
    assert_eq!((r.stream, r.function, r.w), (1, 15, true));
    let a = OffLineAck(OffLineAcknowledge::Acknowledge).into_message();
    assert_eq!((a.stream, a.function, a.w), (1, 16, false));
    assert_eq!(OffLineAck::try_from_message(a).unwrap().0, OffLineAcknowledge::Acknowledge);
    let r = RequestOnLine.into_message();
    assert_eq!((r.stream, r.function, r.w), (1, 17, true));
    let a = OnLineAck(OnLineAcknowledge::AlreadyOnLine).into_message();
    assert_eq!((a.stream, a.function, a.w), (1, 18, false));
    assert!(matches!(&a.body, Some(Item::Binary(v)) if v == &vec![2u8]));
    assert_eq!(OnLineAck::try_from_message(a).unwrap().0, OnLineAcknowledge::AlreadyOnLine);
    assert_eq!(OnLineAck::try_from_message(msg(1, 16, false, Some(Item::Binary(vec![0])))).err(), Some(Error::WrongFunction));
}
