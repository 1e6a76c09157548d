use semi::frame::read_length;
use semi::hsms::single_selected_session::SingleSessionClient;
use semi::hsms::{
    data_outcome, find_transaction, frame, linktest_outcome, receive_step, reply_expected, screen,
    ConnectionMode, ConnectionStateTransition, DataMessage, DeselectStatus, GenericAction,
    HsmsMessage, LinktestRequest, LinktestResponse, Message, MessageHeader, ParameterSettings,
    PresentationType, RejectReason, RejectRequest, SelectRequest, SelectResponse, SelectStatus,
    SelectionState, SeparateRequest, SessionType, Transaction,
};
use std::time::Duration;

fn header(session_id: u16, byte_2: u8, byte_3: u8, presentation_type: u8, session_type: u8, system: u32) -> MessageHeader {
    MessageHeader { session_id, byte_2, byte_3, presentation_type, session_type, system }
}

fn data(session_id: u16, w: bool, stream: u8, function: u8, system: u32, text: Vec<u8>) -> DataMessage {
    DataMessage { session_id, w, stream, function, system, text }
}

#[test]
fn header_bytes_are_big_endian() {
    let h = header(0x0102, 0x83, 0x04, 0x00, 0x05, 0x0A0B0C0D);
    assert_eq!(h.to_bytes(), [0x01, 0x02, 0x83, 0x04, 0x00, 0x05, 0x0A, 0x0B, 0x0C, 0x0D]);
    let b: [u8; 10] = h.into();
    assert_eq!(b, [0x01, 0x02, 0x83, 0x04, 0x00, 0x05, 0x0A, 0x0B, 0x0C, 0x0D]);
}

#[test]
fn header_read_back_from_bytes() {
    let b = [0xFF, 0xFF, 0, 0, 0, 5, 0, 0, 0, 7];
    let h = MessageHeader::from_bytes(b);
    assert_eq!(h, header(0xFFFF, 0, 0, 0, 5, 7));
    let h2: MessageHeader = b.into();
    assert_eq!(h2, h);
    assert_eq!(MessageHeader::from(h.to_bytes()), h);
}

#[test]
fn message_bytes_round_trip() {
    let m = Message { header: header(1, 0x81, 1, 0, 0, 9), text: vec![0x01, 0x00] };
    let bytes = m.to_bytes();
    assert_eq!(bytes, vec![0, 1, 0x81, 1, 0, 0, 0, 0, 0, 9, 0x01, 0x00]);
    let back = Message::try_from_bytes(bytes).unwrap();
    assert_eq!(back.header, m.header);
    assert_eq!(back.text, m.text);
}

#[test]
fn message_needs_ten_bytes() {
    assert!(Message::try_from_bytes(vec![0; 9]).is_err());
    let m = Message::try_from_bytes(vec![0; 10]).unwrap();
    assert!(m.text.is_empty());
}

#[test]
fn frame_prefixes_the_length() {
    let m = Message { header: header(0xFFFF, 0, 0, 0, 5, 1), text: vec![] };
    assert_eq!(frame(&m), vec![0, 0, 0, 10, 0xFF, 0xFF, 0, 0, 0, 5, 0, 0, 0, 1]);
    let m = Message { header: header(0, 0, 0, 0, 0, 0), text: vec![1, 2, 3] };
    assert_eq!(&frame(&m)[0..4], &[0, 0, 0, 13]);
}

#[test]
fn data_message_header_carries_reply_bit_and_stream() {
    let m = HsmsMessage::DataMessage(data(7, true, 1, 13, 42, vec![0x01, 0x00])).into_message();
    assert_eq!(m.header, header(7, 0x81, 13, 0, 0, 42));
    assert_eq!(m.text, vec![0x01, 0x00]);
    match HsmsMessage::try_from_message(m).unwrap() {
        HsmsMessage::DataMessage(d) => {
            assert_eq!((d.session_id, d.w, d.stream, d.function, d.system), (7, true, 1, 13, 42));
            assert_eq!(d.text, vec![0x01, 0x00]);
        }
        other => panic!("unexpected message {:?}", other),
    }
}

#[test]
fn control_messages_have_their_session_types() {
    let m = HsmsMessage::SelectRequest(SelectRequest { session_id: 3, system: 5 }).into_message();
    assert_eq!(m.header, header(3, 0, 0, 0, 1, 5));
    let m = HsmsMessage::SelectResponse(SelectResponse { session_id: 3, status: 1, system: 5 }).into_message();
    assert_eq!(m.header, header(3, 0, 1, 0, 2, 5));
    let m = HsmsMessage::LinktestRequest(LinktestRequest { system: 8 }).into_message();
    assert_eq!(m.header, header(0xFFFF, 0, 0, 0, 5, 8));
    let m = HsmsMessage::RejectRequest(RejectRequest { session_id: 1, message_type: 3, reason_code: 4, system: 2 }).into_message();
    assert_eq!(m.header, header(1, 3, 4, 0, 7, 2));
    let m = HsmsMessage::SeparateRequest(SeparateRequest { session_id: 6, system: 9 }).into_message();
    assert_eq!(m.header, header(6, 0, 0, 0, 9, 9));
}

#[test]
fn received_messages_are_checked() {
    let bad_presentation = Message { header: header(1, 0, 0, 1, 1, 1), text: vec![] };
    assert_eq!(HsmsMessage::try_from_message(bad_presentation).err(), Some(RejectReason::UnsupportedPresentationType));
    let bad_session_type = Message { header: header(1, 0, 0, 0, 8, 1), text: vec![] };
    assert_eq!(HsmsMessage::try_from_message(bad_session_type).err(), Some(RejectReason::UnsupportedSessionType));
    let text_on_select = Message { header: header(1, 0, 0, 0, 1, 1), text: vec![0] };
    assert_eq!(HsmsMessage::try_from_message(text_on_select).err(), Some(RejectReason::MalformedData));
    let linktest_with_session = Message { header: header(1, 0, 0, 0, 5, 1), text: vec![] };
    assert_eq!(HsmsMessage::try_from_message(linktest_with_session).err(), Some(RejectReason::MalformedData));
}

#[test]
fn session_type_and_system_bytes() {
    let m = HsmsMessage::LinktestResponse(LinktestResponse { system: 77 });
    assert_eq!(m.session_type(), SessionType::LinktestResponse);
    assert_eq!(m.system_bytes(), 77);
    let d = HsmsMessage::DataMessage(data(0, false, 1, 2, 3, vec![]));
    assert_eq!(d.session_type(), SessionType::DataMessage);
    assert_eq!(d.system_bytes(), 3);
    assert_eq!(SessionType::SeparateRequest.code(), 9);
    assert_eq!(PresentationType::SecsII.code(), 0);
}

#[test]
fn status_and_reason_codes() {
    assert_eq!(SelectStatus::Success.code(), 0);
    assert_eq!(SelectStatus::Exhausted.code(), 3);
    assert_eq!(DeselectStatus::Busy.code(), 2);
    assert_eq!(RejectReason::EntityNotSelected.code(), 4);
}

#[test]
fn screen_rejects_with_session_type_and_reason() {
    let m = Message { header: header(4, 0, 0, 0, 200, 11), text: vec![] };
    match screen(m) {
        Err(HsmsMessage::RejectRequest(r)) => {
            assert_eq!(r, RejectRequest { session_id: 4, message_type: 200, reason_code: 1, system: 11 });
        }
        other => panic!("unexpected result {:?}", other),
    }
    let ok = Message { header: header(0xFFFF, 0, 0, 0, 5, 1), text: vec![] };
    assert!(matches!(screen(ok), Ok(HsmsMessage::LinktestRequest(LinktestRequest { system: 1 }))));
}

#[test]
fn find_transaction_takes_the_first_match() {
    let outbox = vec![
        Transaction { key: 1, system: 5, session_type: SessionType::LinktestRequest },
        Transaction { key: 2, system: 5, session_type: SessionType::DataMessage },
        Transaction { key: 3, system: 5, session_type: SessionType::DataMessage },
    ];
    assert_eq!(find_transaction(&outbox, 5, SessionType::DataMessage), Some(2));
    assert_eq!(find_transaction(&outbox, 6, SessionType::DataMessage), None);
}

#[test]
fn primary_data_is_delivered_when_selected() {
    let (state, action) = receive_step(
        SelectionState::Selected(1),
        &vec![],
        HsmsMessage::DataMessage(data(1, true, 1, 1, 9, vec![])),
    );
    assert_eq!(state, SelectionState::Selected(1));
    assert!(matches!(action, GenericAction::Deliver(d) if d.system == 9));
}

#[test]
fn data_is_rejected_when_not_selected() {
    let (state, action) = receive_step(
        SelectionState::NotSelected,
        &vec![],
        HsmsMessage::DataMessage(data(1, true, 1, 1, 9, vec![])),
    );
    assert_eq!(state, SelectionState::NotSelected);
    match action {
        GenericAction::Send(HsmsMessage::RejectRequest(r)) => {
            assert_eq!(r, RejectRequest { session_id: 1, message_type: 0, reason_code: 4, system: 9 });
        }
        other => panic!("unexpected action {:?}", other),
    }
}

#[test]
fn replies_complete_open_transactions_or_are_rejected() {
    let outbox = vec![Transaction { key: 40, system: 9, session_type: SessionType::DataMessage }];
    let (_, action) = receive_step(
        SelectionState::Selected(1),
        &outbox,
        HsmsMessage::DataMessage(data(1, false, 1, 2, 9, vec![])),
    );
    assert!(matches!(action, GenericAction::Complete(40, HsmsMessage::DataMessage(_))));
    let (_, action) = receive_step(
        SelectionState::Selected(1),
        &outbox,
        HsmsMessage::DataMessage(data(1, false, 1, 2, 10, vec![])),
    );
    match action {
        GenericAction::Send(HsmsMessage::RejectRequest(r)) => assert_eq!(r.reason_code, 3),
        other => panic!("unexpected action {:?}", other),
    }
}

#[test]
fn select_request_selects_when_not_selected() {
    let (state, action) = receive_step(
        SelectionState::NotSelected,
        &vec![],
        HsmsMessage::SelectRequest(SelectRequest { session_id: 12, system: 3 }),
    );
    assert_eq!(state, SelectionState::Selected(12));
    assert!(matches!(action, GenericAction::Send(HsmsMessage::SelectResponse(SelectResponse { session_id: 12, status: 0, system: 3 }))));
    let (state, action) = receive_step(
        SelectionState::Selected(12),
        &vec![],
        HsmsMessage::SelectRequest(SelectRequest { session_id: 13, system: 4 }),
    );
    assert_eq!(state, SelectionState::Selected(12));
    assert!(matches!(action, GenericAction::Send(HsmsMessage::SelectResponse(SelectResponse { status: 1, .. }))));
}

#[test]
fn linktest_is_answered_and_completed() {
    let (_, action) = receive_step(
        SelectionState::NotSelected,
        &vec![],
        HsmsMessage::LinktestRequest(LinktestRequest { system: 21 }),
    );
    assert!(matches!(action, GenericAction::Send(HsmsMessage::LinktestResponse(LinktestResponse { system: 21 }))));
    let outbox = vec![Transaction { key: 5, system: 21, session_type: SessionType::LinktestRequest }];
    let (_, action) = receive_step(
        SelectionState::NotSelected,
        &outbox,
        HsmsMessage::LinktestResponse(LinktestResponse { system: 21 }),
    );
    assert!(matches!(action, GenericAction::Complete(5, HsmsMessage::LinktestResponse(_))));
    let (_, action) = receive_step(
        SelectionState::NotSelected,
        &vec![],
        HsmsMessage::LinktestResponse(LinktestResponse { system: 21 }),
    );
    assert!(matches!(action, GenericAction::Send(HsmsMessage::RejectRequest(RejectRequest { session_id: 0xFFFF, reason_code: 3, .. }))));
}

#[test]
fn separate_request_deselects_its_session_only() {
    let (state, action) = receive_step(
        SelectionState::Selected(2),
        &vec![],
        HsmsMessage::SeparateRequest(SeparateRequest { session_id: 2, system: 1 }),
    );
    assert_eq!(state, SelectionState::NotSelected);
    assert!(matches!(action, GenericAction::Ignore));
    let (state, _) = receive_step(
        SelectionState::Selected(2),
        &vec![],
        HsmsMessage::SeparateRequest(SeparateRequest { session_id: 3, system: 1 }),
    );
    assert_eq!(state, SelectionState::Selected(2));
}

#[test]
fn reply_expected_for_primary_with_w_bit() {
    assert!(reply_expected(&data(0, true, 1, 1, 0, vec![])));
    assert!(!reply_expected(&data(0, false, 1, 1, 0, vec![])));
    assert!(!reply_expected(&data(0, true, 1, 2, 0, vec![])));
}

#[test]
fn data_outcomes() {
    let (disconnect, result) = data_outcome(true, None);
    assert!(disconnect);
    assert_eq!(result.err(), Some(ConnectionStateTransition::ConnectedToNotConnected));
    let (disconnect, result) = data_outcome(false, None);
    assert!(!disconnect);
    assert!(matches!(result, Ok(None)));
    let (disconnect, result) = data_outcome(true, Some(HsmsMessage::LinktestResponse(LinktestResponse { system: 1 })));
    assert!(!disconnect);
    assert!(matches!(result, Ok(Some(HsmsMessage::LinktestResponse(_)))));
}

#[test]
fn linktest_outcomes() {
    assert!(matches!(linktest_outcome(Some(HsmsMessage::LinktestResponse(LinktestResponse { system: 1 }))), (false, Ok(()))));
    assert!(matches!(
        linktest_outcome(Some(HsmsMessage::SelectRequest(SelectRequest { session_id: 0, system: 1 }))),
        (false, Err(ConnectionStateTransition::NoTransition))
    ));
    assert!(matches!(linktest_outcome(None), (true, Err(ConnectionStateTransition::ConnectedToNotConnected))));
}

#[test]
fn defaults() {
    assert_eq!(ConnectionMode::default(), ConnectionMode::Passive);
    assert_eq!(SelectionState::default(), SelectionState::NotSelected);
    let p = ParameterSettings::default();
    assert_eq!(p.connect_mode, ConnectionMode::Passive);
    assert_eq!(p.t3, Duration::from_secs(45));
    assert_eq!(p.t5, Duration::from_secs(10));
    assert_eq!(p.t6, Duration::from_secs(5));
    assert_eq!(p.t7, Duration::from_secs(10));
    assert_eq!(p.t8, Duration::from_secs(5));
    let _client = SingleSessionClient {};
}

#[test]
fn accepted_messages_are_sent_as_received() {
    let raw = Message { header: header(9, 0x85, 3, 0, 0, 1234), text: vec![0x21, 0x01, 0x07] };
    let sent = HsmsMessage::try_from_message(raw).unwrap().into_message();
    assert_eq!(sent.header, header(9, 0x85, 3, 0, 0, 1234));
    assert_eq!(sent.text, vec![0x21, 0x01, 0x07]);
    let raw = Message { header: header(2, 5, 1, 0, 7, 77), text: vec![] };
    let sent = HsmsMessage::try_from_message(raw).unwrap().into_message();
    assert_eq!(sent.header, header(2, 5, 1, 0, 7, 77));
}

#[test]
fn framed_hsms_message_reads_back() {
    let m = Message { header: header(1, 0, 0, 0, 9, 3), text: vec![] };
    let wire = frame(&m);
    assert_eq!(read_length([wire[0], wire[1], wire[2], wire[3]]), Some(10));
    let back = Message::try_from_bytes(wire[4..].to_vec()).unwrap();
    assert_eq!(back.header, m.header);
    assert!(back.text.is_empty());
}
