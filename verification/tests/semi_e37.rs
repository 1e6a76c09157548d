use semi::frame::read_length;
use semi::semi_e37::select_allowed;
use semi::secs_ii::item_bytes::encodable;
use semi::secs_ii::{Item, Message as SecsMessage};
use semi::semi_e37::{
    data_outcome, find_transaction, frame, linktest_outcome, receive_step, select_outcome,
    selected_only, ClientAction, ConnectionMode, ConnectionStateTransition, HsmsMessage,
    HsmsMessageContents, HsmsMessageID, Outcome, ParameterSettings, PrimitiveMessage,
    PrimitiveMessageHeader, RejectReason, SelectStatus, SelectionState, SessionType, Transaction,
};
use std::time::Duration;

fn header(session_id: u16, byte_2: u8, byte_3: u8, presentation_type: u8, session_type: u8, system: u32) -> PrimitiveMessageHeader {
    PrimitiveMessageHeader { session_id, byte_2, byte_3, presentation_type, session_type, system }
}

fn id(session: u16, system: u32) -> HsmsMessageID {
    HsmsMessageID { session, system }
}

fn secs(stream: u8, function: u8, w: bool, body: Option<Item>) -> SecsMessage {
    SecsMessage { stream, function, w, body }
}

#[test]
fn primitive_header_bytes() {
    let h = header(0x1234, 0x81, 0x0D, 0, 0, 0xDEADBEEF);
    let b: [u8; 10] = h.into();
    assert_eq!(b, [0x12, 0x34, 0x81, 0x0D, 0, 0, 0xDE, 0xAD, 0xBE, 0xEF]);
    assert_eq!(PrimitiveMessageHeader::from(b), h);
}

#[test]
fn primitive_message_bytes_round_trip() {
    let m = PrimitiveMessage { header: header(1, 2, 3, 4, 5, 6), text: vec![7, 8] };
    let bytes = m.to_bytes();
    assert_eq!(bytes, vec![0, 1, 2, 3, 4, 5, 0, 0, 0, 6, 7, 8]);
    let back = PrimitiveMessage::try_from_bytes(bytes).unwrap();
    assert_eq!(back.header, m.header);
    assert_eq!(back.text, vec![7, 8]);
    assert!(PrimitiveMessage::try_from_bytes(vec![1, 2, 3]).is_err());
}

#[test]
fn frame_gives_length_header_and_text() {
    let m = PrimitiveMessage { header: header(0xFFFF, 0, 0, 0, 6, 3), text: vec![] };
    assert_eq!(frame(&m), vec![0, 0, 0, 10, 0xFF, 0xFF, 0, 0, 0, 6, 0, 0, 0, 3]);
}

#[test]
fn data_message_text_is_the_encoded_body() {
    let body = Item::List(vec![]);
    assert!(encodable(&body));
    let m = HsmsMessage { id: id(5, 9), contents: HsmsMessageContents::DataMessage(secs(1, 13, true, Some(body))) };
    let p = m.into_primitive();
    assert_eq!(p.header, header(5, 0x81, 13, 0, 0, 9));
    assert_eq!(p.text, vec![0x01, 0x00]);
    let back = HsmsMessage::try_from_primitive(p).unwrap();
    assert_eq!(back.id, id(5, 9));
    match back.contents {
        HsmsMessageContents::DataMessage(d) => {
            assert_eq!((d.stream, d.function, d.w), (1, 13, true));
            assert!(matches!(d.body, Some(Item::List(v)) if v.is_empty()));
        }
        other => panic!("unexpected contents {:?}", other),
    }
}

#[test]
fn header_only_data_message_has_empty_text() {
    let m = HsmsMessage { id: id(1, 1), contents: HsmsMessageContents::DataMessage(secs(1, 1, true, None)) };
    let p = m.into_primitive();
    assert!(p.text.is_empty());
    match HsmsMessage::try_from_primitive(p).unwrap().contents {
        HsmsMessageContents::DataMessage(d) => assert!(d.body.is_none()),
        other => panic!("unexpected contents {:?}", other),
    }
}

#[test]
fn unencodable_bodies_are_detected() {
    assert!(!encodable(&Item::Jis8(vec![1])));
    assert!(!encodable(&Item::Localized(1, vec![])));
    assert!(!encodable(&Item::Ascii(vec![0xC0])));
    assert!(!encodable(&Item::List(vec![Item::Binary(vec![]), Item::Jis8(vec![])])));
    assert!(encodable(&Item::List(vec![Item::Binary(vec![]), Item::Ascii(b"ok".to_vec())])));
}

#[test]
fn malformed_data_text_is_rejected() {
    let p = PrimitiveMessage { header: header(1, 0x81, 1, 0, 0, 1), text: vec![0x01] };
    assert_eq!(HsmsMessage::try_from_primitive(p).err(), Some(RejectReason::MalformedData));
    let p = PrimitiveMessage { header: header(1, 0, 0, 2, 0, 1), text: vec![] };
    assert_eq!(HsmsMessage::try_from_primitive(p).err(), Some(RejectReason::UnsupportedPresentationType));
    let p = PrimitiveMessage { header: header(1, 0, 0, 0, 11, 1), text: vec![] };
    assert_eq!(HsmsMessage::try_from_primitive(p).err(), Some(RejectReason::UnsupportedSessionType));
}

#[test]
fn control_messages_convert_both_ways() {
    let m = HsmsMessage { id: id(0xFFFF, 4), contents: HsmsMessageContents::LinktestRequest };
    let p = m.into_primitive();
    assert_eq!(p.header, header(0xFFFF, 0, 0, 0, 5, 4));
    assert!(matches!(HsmsMessage::try_from_primitive(p).unwrap().contents, HsmsMessageContents::LinktestRequest));
    let m = HsmsMessage { id: id(2, 4), contents: HsmsMessageContents::RejectRequest(1, 3) };
    let p = m.into_primitive();
    assert_eq!(p.header, header(2, 1, 3, 0, 7, 4));
    let m = HsmsMessage { id: id(2, 4), contents: HsmsMessageContents::SelectResponse(2) };
    assert_eq!(m.into_primitive().header, header(2, 0, 2, 0, 2, 4));
}

#[test]
fn received_garbage_is_rejected_with_its_type() {
    let p = PrimitiveMessage { header: header(3, 0, 0, 9, 1, 8), text: vec![] };
    let (state, action) = receive_step(SelectionState::Selected, &vec![], true, p);
    assert_eq!(state, SelectionState::Selected);
    match action {
        ClientAction::Send(m) => {
            assert_eq!(m.id, id(3, 8));
            assert!(matches!(m.contents, HsmsMessageContents::RejectRequest(9, 2)));
        }
        other => panic!("unexpected action {:?}", other),
    }
    let p = PrimitiveMessage { header: header(3, 0, 0, 0, 12, 8), text: vec![] };
    let (_, action) = receive_step(SelectionState::Selected, &vec![], true, p);
    assert!(matches!(action, ClientAction::Send(HsmsMessage { contents: HsmsMessageContents::RejectRequest(12, 1), .. })));
}

#[test]
fn primary_data_is_delivered_only_when_selected() {
    let p = HsmsMessage { id: id(1, 2), contents: HsmsMessageContents::DataMessage(secs(1, 1, true, None)) }.into_primitive();
    let (_, action) = receive_step(SelectionState::Selected, &vec![], true, p);
    assert!(matches!(action, ClientAction::Deliver(i, m) if i == id(1, 2) && m.function == 1));
    let p = HsmsMessage { id: id(1, 2), contents: HsmsMessageContents::DataMessage(secs(1, 1, true, None)) }.into_primitive();
    let (_, action) = receive_step(SelectionState::NotSelected, &vec![], true, p);
    assert!(matches!(action, ClientAction::Send(HsmsMessage { contents: HsmsMessageContents::RejectRequest(0, 4), .. })));
}

#[test]
fn replies_complete_transactions() {
    let outbox = vec![Transaction { key: 17, id: id(1, 2) }];
    let p = HsmsMessage { id: id(1, 2), contents: HsmsMessageContents::DataMessage(secs(1, 2, false, None)) }.into_primitive();
    let (_, action) = receive_step(SelectionState::Selected, &outbox, true, p);
    assert!(matches!(action, ClientAction::Complete(17, Some(_))));
    let p = HsmsMessage { id: id(1, 3), contents: HsmsMessageContents::DataMessage(secs(1, 2, false, None)) }.into_primitive();
    let (_, action) = receive_step(SelectionState::Selected, &outbox, true, p);
    assert!(matches!(action, ClientAction::Send(HsmsMessage { contents: HsmsMessageContents::RejectRequest(0, 3), .. })));
    let p = HsmsMessage { id: id(1, 2), contents: HsmsMessageContents::RejectRequest(0, 3) }.into_primitive();
    let (_, action) = receive_step(SelectionState::Selected, &outbox, true, p);
    assert!(matches!(action, ClientAction::Complete(17, None)));
    let p = HsmsMessage { id: id(0xFFFF, 9), contents: HsmsMessageContents::LinktestResponse }.into_primitive();
    let (_, action) = receive_step(SelectionState::Selected, &outbox, true, p);
    assert!(matches!(action, ClientAction::Send(HsmsMessage { contents: HsmsMessageContents::RejectRequest(5, 3), .. })));
    assert_eq!(find_transaction(&outbox, id(1, 2)), Some(17));
    assert_eq!(find_transaction(&outbox, id(2, 2)), None);
}

#[test]
fn select_request_needs_the_lock() {
    let p = || HsmsMessage { id: id(1, 2), contents: HsmsMessageContents::SelectRequest }.into_primitive();
    let (state, action) = receive_step(SelectionState::NotSelected, &vec![], false, p());
    assert_eq!(state, SelectionState::NotSelected);
    assert!(matches!(action, ClientAction::Ignore));
    let (state, action) = receive_step(SelectionState::NotSelected, &vec![], true, p());
    assert_eq!(state, SelectionState::Selected);
    assert!(matches!(action, ClientAction::Send(HsmsMessage { contents: HsmsMessageContents::SelectResponse(0), .. })));
    let (state, action) = receive_step(SelectionState::Selected, &vec![], true, p());
    assert_eq!(state, SelectionState::Selected);
    assert!(matches!(action, ClientAction::Send(HsmsMessage { contents: HsmsMessageContents::SelectResponse(1), .. })));
}

#[test]
fn separate_and_linktest_requests() {
    let p = HsmsMessage { id: id(1, 2), contents: HsmsMessageContents::SeparateRequest }.into_primitive();
    let (state, action) = receive_step(SelectionState::Selected, &vec![], true, p);
    assert_eq!(state, SelectionState::NotSelected);
    assert!(matches!(action, ClientAction::Ignore));
    let p = HsmsMessage { id: id(0xFFFF, 6), contents: HsmsMessageContents::LinktestRequest }.into_primitive();
    let (_, action) = receive_step(SelectionState::NotSelected, &vec![], true, p);
    assert!(matches!(action, ClientAction::Send(HsmsMessage { id: HsmsMessageID { session: 0xFFFF, system: 6 }, contents: HsmsMessageContents::LinktestResponse })));
}

#[test]
fn procedure_outcomes() {
    assert_eq!(selected_only(SelectionState::Selected), Ok(()));
    assert_eq!(selected_only(SelectionState::NotSelected), Err(ConnectionStateTransition::NoTransition));
    assert!(matches!(data_outcome(true, None), Outcome::Disconnect));
    assert!(matches!(data_outcome(false, None), Outcome::Finish(Ok(None))));
    let reply = HsmsMessage { id: id(1, 1), contents: HsmsMessageContents::DataMessage(secs(1, 2, false, None)) };
    assert!(matches!(data_outcome(true, Some(reply)), Outcome::Finish(Ok(Some(m))) if m.function == 2));
    let reply = HsmsMessage { id: id(1, 1), contents: HsmsMessageContents::LinktestResponse };
    assert!(matches!(data_outcome(true, Some(reply)), Outcome::Finish(Err(ConnectionStateTransition::NoTransition))));
    let ok = HsmsMessage { id: id(1, 1), contents: HsmsMessageContents::SelectResponse(SelectStatus::Success.code()) };
    let (state, outcome) = select_outcome(Some(ok));
    assert_eq!(state, SelectionState::Selected);
    assert!(matches!(outcome, Outcome::Finish(Ok(()))));
    let refused = HsmsMessage { id: id(1, 1), contents: HsmsMessageContents::SelectResponse(SelectStatus::NotReady.code()) };
    let (state, outcome) = select_outcome(Some(refused));
    assert_eq!(state, SelectionState::NotSelected);
    assert!(matches!(outcome, Outcome::Finish(Err(ConnectionStateTransition::NoTransition))));
    let (state, outcome) = select_outcome(None);
    assert_eq!(state, SelectionState::NotSelected);
    assert!(matches!(outcome, Outcome::Disconnect));
    let linktest = HsmsMessage { id: id(0xFFFF, 1), contents: HsmsMessageContents::LinktestResponse };
    assert!(matches!(linktest_outcome(Some(linktest)), Outcome::Finish(Ok(()))));
    assert!(matches!(linktest_outcome(None), Outcome::Disconnect));
}

#[test]
fn e37_defaults_and_codes() {
    assert_eq!(ConnectionMode::default(), ConnectionMode::Passive);
    assert_eq!(SelectionState::default(), SelectionState::NotSelected);
    let p = ParameterSettings::default();
    assert_eq!(p.t3, Duration::from_secs(45));
    assert_eq!(p.t8, Duration::from_secs(5));
    assert_eq!(SessionType::RejectRequest.code(), 7);
}

#[test]
fn accepted_messages_can_be_sent_again() {
    let p = PrimitiveMessage { header: header(8, 0x06, 11, 0, 0, 5), text: vec![0x01, 0x01, 0xA5, 0x01, 0x09] };
    let m = HsmsMessage::try_from_primitive(p).unwrap();
    let again = m.into_primitive();
    assert_eq!(again.header, header(8, 0x06, 11, 0, 0, 5));
    assert_eq!(again.text, vec![0x01, 0x01, 0xA5, 0x01, 0x09]);
}

#[test]
fn select_is_allowed_only_when_not_selected() {
    assert_eq!(select_allowed(SelectionState::NotSelected), Ok(()));
    assert_eq!(select_allowed(SelectionState::Selected), Err(ConnectionStateTransition::NoTransition));
}

#[test]
fn framed_message_reads_back() {
    let m = PrimitiveMessage { header: header(3, 0x81, 1, 0, 0, 44), text: vec![0x01, 0x00] };
    let wire = frame(&m);
    let length = read_length([wire[0], wire[1], wire[2], wire[3]]).unwrap();
    assert_eq!(length as usize, wire.len() - 4);
    let back = PrimitiveMessage::try_from_bytes(wire[4..].to_vec()).unwrap();
    assert_eq!(back.header, m.header);
    assert_eq!(back.text, m.text);
}
