use semi::semi_e37::primitive::{link_check, LinkRefusal, LinkRequest};
use semi::secs_ii::{Item, Message as SecsMessage};
use semi::semi_e37::generic::{
    data_outcome, deselect_outcome, deselect_response, linktest_outcome, receive_action,
    reply_expected, require_selected, select_outcome, select_response, separate_outcome,
    DeselectStatus, Message, MessageContents, MessageID, ParameterSettings, ProcedureCallbacks,
    ProcedureError, ReceiveAction, RejectReason, SelectStatus, Selection, SelectionState,
    SessionType,
};
use semi::semi_e37::primitive::{ConnectionMode, Message as PrimitiveMessage, MessageHeader};
use semi::semi_e37::single;
use std::time::Duration;

fn id(session: u16, system: u32) -> MessageID {
    MessageID { session, system }
}

fn secs(stream: u8, function: u8, w: bool, body: Option<Item>) -> SecsMessage {
    SecsMessage { stream, function, w, body }
}

fn primitive(id: MessageID, contents: MessageContents) -> PrimitiveMessage {
    Message { id, contents }.into_primitive()
}

fn selected(count: u16) -> Selection {
    Selection { state: SelectionState::Selected, count }
}

#[test]
fn message_converts_to_primitive_and_back() {
    let p = primitive(id(7, 70), MessageContents::DataMessage(secs(6, 11, true, Some(Item::Unsigned1(vec![3])))));
    assert_eq!(p.header, MessageHeader { session_id: 7, byte_2: 0x86, byte_3: 11, presentation_type: 0, session_type: 0, system: 70 });
    assert_eq!(p.text, vec![0xA5, 0x01, 0x03]);
    let back = Message::try_from_primitive(p).unwrap();
    assert_eq!(back.id, id(7, 70));
    assert!(matches!(back.contents, MessageContents::DataMessage(m) if m.stream == 6 && m.function == 11 && m.w));
    let bytes: [u8; 10] = MessageHeader { session_id: 1, byte_2: 0, byte_3: 0, presentation_type: 0, session_type: 9, system: 2 }.into();
    assert_eq!(bytes, [0, 1, 0, 0, 0, 9, 0, 0, 0, 2]);
}

#[test]
fn malformed_messages_are_refused() {
    let p = PrimitiveMessage {
        header: MessageHeader { session_id: 1, byte_2: 1, byte_3: 0, presentation_type: 0, session_type: 3, system: 2 },
        text: vec![],
    };
    assert_eq!(Message::try_from_primitive(p).err(), Some(RejectReason::MalformedData));
}

#[test]
fn selection_bookkeeping() {
    let s = Selection::not_selected();
    assert_eq!(s, Selection { state: SelectionState::NotSelected, count: 0 });
    let (s, reply) = select_response(s, id(1, 1), SelectStatus::Success);
    assert_eq!(s, selected(1));
    assert!(matches!(reply.contents, MessageContents::SelectResponse(0)));
    let (s, reply) = select_response(s, id(2, 2), SelectStatus::AlreadyActive);
    assert_eq!(s, selected(1));
    assert!(matches!(reply.contents, MessageContents::SelectResponse(1)));
    let (s, _) = select_response(s, id(3, 3), SelectStatus::Success);
    assert_eq!(s, selected(2));
    let (s, reply) = deselect_response(s, id(4, 4), DeselectStatus::Success);
    assert_eq!(s, selected(1));
    assert!(matches!(reply.contents, MessageContents::DeselectResponse(0)));
    let (s, reply) = deselect_response(s, id(5, 5), DeselectStatus::Busy);
    assert_eq!(s, selected(1));
    assert!(matches!(reply.contents, MessageContents::DeselectResponse(2)));
    assert_eq!(separate_outcome(s, false), selected(1));
    assert_eq!(separate_outcome(s, true), Selection::not_selected());
}

#[test]
fn requests_from_the_other_entity_consult_the_callbacks() {
    let p = primitive(id(1, 10), MessageContents::SelectRequest);
    assert!(matches!(receive_action(Selection::not_selected(), &vec![], true, p), ReceiveAction::ConsultSelect(i) if i == id(1, 10)));
    let p = primitive(id(1, 10), MessageContents::SelectRequest);
    assert!(matches!(receive_action(Selection::not_selected(), &vec![], false, p), ReceiveAction::Ignore));
    let p = primitive(id(1, 11), MessageContents::DeselectRequest);
    assert!(matches!(receive_action(selected(1), &vec![], true, p), ReceiveAction::ConsultDeselect(i) if i == id(1, 11)));
    let p = primitive(id(1, 12), MessageContents::SeparateRequest);
    assert!(matches!(receive_action(selected(1), &vec![], true, p), ReceiveAction::ConsultSeparate(i) if i == id(1, 12)));
    let p = primitive(id(1, 12), MessageContents::SeparateRequest);
    assert!(matches!(receive_action(Selection::not_selected(), &vec![], true, p), ReceiveAction::Ignore));
}

#[test]
fn deselect_without_selection_is_answered_not_established() {
    let p = primitive(id(1, 11), MessageContents::DeselectRequest);
    match receive_action(Selection::not_selected(), &vec![], true, p) {
        ReceiveAction::Transmit(m) => {
            assert_eq!(m.id, id(1, 11));
            assert!(matches!(m.contents, MessageContents::DeselectResponse(1)));
        }
        other => panic!("unexpected action {:?}", other),
    }
}

#[test]
fn data_and_replies_are_routed() {
    let p = primitive(id(1, 20), MessageContents::DataMessage(secs(1, 3, true, None)));
    assert!(matches!(receive_action(selected(1), &vec![], true, p), ReceiveAction::Deliver(i, m) if i == id(1, 20) && m.function == 3));
    let p = primitive(id(1, 20), MessageContents::DataMessage(secs(1, 3, true, None)));
    assert!(matches!(receive_action(Selection::not_selected(), &vec![], true, p), ReceiveAction::Transmit(Message { contents: MessageContents::RejectRequest(0, 4), .. })));
    let open = vec![id(1, 21)];
    let p = primitive(id(1, 21), MessageContents::DataMessage(secs(1, 4, false, None)));
    assert!(matches!(receive_action(selected(1), &open, true, p), ReceiveAction::Complete(_)));
    let p = primitive(id(1, 22), MessageContents::DataMessage(secs(1, 4, false, None)));
    assert!(matches!(receive_action(selected(1), &open, true, p), ReceiveAction::Transmit(Message { contents: MessageContents::RejectRequest(0, 3), .. })));
    let p = primitive(id(1, 21), MessageContents::SelectResponse(0));
    assert!(matches!(receive_action(selected(1), &open, true, p), ReceiveAction::Complete(Message { contents: MessageContents::SelectResponse(0), .. })));
    let p = primitive(id(0xFFFF, 23), MessageContents::LinktestRequest);
    assert!(matches!(receive_action(Selection::not_selected(), &open, true, p), ReceiveAction::Transmit(Message { contents: MessageContents::LinktestResponse, .. })));
}

#[test]
fn undecodable_messages_are_rejected() {
    let p = PrimitiveMessage {
        header: MessageHeader { session_id: 4, byte_2: 0, byte_3: 0, presentation_type: 3, session_type: 0, system: 5 },
        text: vec![],
    };
    match receive_action(selected(1), &vec![], true, p) {
        ReceiveAction::Transmit(m) => {
            assert_eq!(m.id, id(4, 5));
            assert!(matches!(m.contents, MessageContents::RejectRequest(3, 2)));
        }
        other => panic!("unexpected action {:?}", other),
    }
}

#[test]
fn procedure_requirements_and_outcomes() {
    assert_eq!(require_selected(SelectionState::Selected), Ok(()));
    assert_eq!(require_selected(SelectionState::NotSelected), Err(ProcedureError::AlreadyExists));
    assert!(reply_expected(&secs(1, 1, true, None)));
    assert!(!reply_expected(&secs(1, 2, true, None)));
    let (drop, result) = data_outcome(true, None);
    assert!(drop);
    assert_eq!(result.err(), Some(ProcedureError::ConnectionAborted));
    let (drop, result) = data_outcome(false, None);
    assert!(!drop && matches!(result, Ok(None)));
    let reject = Message { id: id(1, 1), contents: MessageContents::RejectRequest(0, 3) };
    assert_eq!(data_outcome(true, Some(reject)).1.err(), Some(ProcedureError::PermissionDenied));
    let other = Message { id: id(1, 1), contents: MessageContents::LinktestResponse };
    assert_eq!(data_outcome(true, Some(other)).1.err(), Some(ProcedureError::InvalidData));
}

#[test]
fn select_and_deselect_outcomes() {
    let ok = Message { id: id(1, 1), contents: MessageContents::SelectResponse(0) };
    assert_eq!(select_outcome(Selection::not_selected(), Some(ok)), (selected(1), false, Ok(())));
    let no = Message { id: id(1, 1), contents: MessageContents::SelectResponse(2) };
    assert_eq!(
        select_outcome(Selection::not_selected(), Some(no)),
        (Selection::not_selected(), false, Err(ProcedureError::PermissionDenied))
    );
    assert_eq!(
        select_outcome(Selection::not_selected(), None),
        (Selection::not_selected(), true, Err(ProcedureError::ConnectionAborted))
    );
    let ok = Message { id: id(1, 1), contents: MessageContents::DeselectResponse(0) };
    assert_eq!(deselect_outcome(selected(1), Some(ok)), (Selection::not_selected(), false, Ok(())));
    let wrong = Message { id: id(1, 1), contents: MessageContents::SeparateRequest };
    assert_eq!(deselect_outcome(selected(2), Some(wrong)), (selected(2), false, Err(ProcedureError::InvalidData)));
    let link = Message { id: id(0xFFFF, 1), contents: MessageContents::LinktestResponse };
    assert_eq!(linktest_outcome(Some(link)), (false, Ok(())));
    assert_eq!(linktest_outcome(None), (true, Err(ProcedureError::ConnectionAborted)));
}

#[test]
fn codes_and_defaults() {
    assert_eq!(SelectStatus::EntitySelected.code(), 6);
    assert_eq!(DeselectStatus::NotEstablished.code(), 1);
    assert_eq!(SessionType::SeparateRequest.code(), 9);
    assert_eq!(RejectReason::TransactionNotOpen.code(), 3);
    assert_eq!(SelectionState::default(), SelectionState::NotSelected);
    assert_eq!(ConnectionMode::default(), ConnectionMode::Passive);
    let p = ParameterSettings::default();
    assert_eq!(p.t5, Duration::from_secs(10));
    assert_eq!(p.t7, Duration::from_secs(10));
}

#[test]
fn single_session_callbacks() {
    assert_eq!(single::passive_select(0xFFFF, 0), SelectStatus::Success);
    assert_eq!(single::passive_select(1, 0), SelectStatus::NotReady);
    assert_eq!(single::passive_select(0xFFFF, 1), SelectStatus::AlreadyActive);
    assert_eq!(single::active_select(0xFFFF, 0), SelectStatus::NotReady);
    assert_eq!(single::deselect(0xFFFF, 1), DeselectStatus::Busy);
    assert!(single::separate(0xFFFF, 1));
    assert!(!single::separate(2, 1));
    assert_eq!(single::connect_select_id(), id(0xFFFF, 0));
    assert_eq!(single::SESSION_ID, 0xFFFF);
}

#[test]
fn callbacks_hold_the_user_choices() {
    let callbacks = ProcedureCallbacks {
        select: single::passive_select,
        deselect: single::deselect,
        separate: single::separate,
    };
    assert_eq!((callbacks.select)(0xFFFF, 0), SelectStatus::Success);
    assert_eq!((callbacks.deselect)(0xFFFF, 1), DeselectStatus::Busy);
    assert!((callbacks.separate)(0xFFFF, 1));
}

#[test]
fn primitive_client_requests_follow_the_connection() {
    assert_eq!(link_check(false, LinkRequest::Connect), Ok(()));
    assert_eq!(link_check(true, LinkRequest::Connect), Err(LinkRefusal::AlreadyConnected));
    assert_eq!(link_check(true, LinkRequest::Transmit), Ok(()));
    assert_eq!(link_check(false, LinkRequest::Transmit), Err(LinkRefusal::NotConnected));
    assert_eq!(link_check(false, LinkRequest::Disconnect), Err(LinkRefusal::NotConnected));
}
