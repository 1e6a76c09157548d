//! Generic services: HSMS messages by identity and contents, their
//! conversions to and from primitive messages, and the decisions of the
//! generic client.
use vstd::prelude::*;

pub mod laws;
use crate::frame::{duration_from_secs, seconds};
use crate::hsms::{data_byte_2, lemma_byte_2, lemma_byte_2_back, stream_of, w_of};
use crate::secs_ii::{Message as SecsMessage, MessageV as SecsMessageV};
use crate::secs_ii::codec::wf;
use crate::data_text::{body_of, lemma_body_roundtrip, lemma_body_wf, text_bytes, text_body, text_of};
use crate::semi_e37::PresentationType;
use crate::semi_e37::primitive::{Message as PrimitiveMessage, MessageV as PrimitiveMessageV, MessageHeader as PrimitiveMessageHeader};

pub use crate::semi_e37::primitive::ConnectionMode;

verus! {

/// The selection state of a connection.
#[derive(Debug, Clone, Copy, PartialEq, Eq, Structural)]
pub enum SelectionState {
    NotSelected,
    Selected,
}

impl Default for SelectionState {
    /// The initial state: not selected.
    fn default() -> (r: Self)
        ensures
            r == SelectionState::NotSelected,
    {
        SelectionState::NotSelected
    }
}

/// The session type of a message: the kind of message it is.
#[derive(Debug, Clone, Copy, PartialEq, Eq, Structural)]
pub enum SessionType {
    DataMessage,
    SelectRequest,
    SelectResponse,
    DeselectRequest,
    DeselectResponse,
    LinktestRequest,
    LinktestResponse,
    RejectRequest,
    SeparateRequest,
}

impl SessionType {
    /// The code of the value.
    pub open spec fn spec_code(self) -> u8 {
        match self {
            SessionType::DataMessage => 0,
            SessionType::SelectRequest => 1,
            SessionType::SelectResponse => 2,
            SessionType::DeselectRequest => 3,
            SessionType::DeselectResponse => 4,
            SessionType::LinktestRequest => 5,
            SessionType::LinktestResponse => 6,
            SessionType::RejectRequest => 7,
            SessionType::SeparateRequest => 9,
        }
    }

    /// The code of the value.
    pub fn code(self) -> (r: u8)
        ensures
            r == self.spec_code(),
    {
        match self {
            SessionType::DataMessage => 0,
            SessionType::SelectRequest => 1,
            SessionType::SelectResponse => 2,
            SessionType::DeselectRequest => 3,
            SessionType::DeselectResponse => 4,
            SessionType::LinktestRequest => 5,
            SessionType::LinktestResponse => 6,
            SessionType::RejectRequest => 7,
            SessionType::SeparateRequest => 9,
        }
    }
}

/// The outcome of a select request.
#[derive(Debug, Clone, Copy, PartialEq, Eq, Structural)]
pub enum SelectStatus {
    Success,
    AlreadyActive,
    NotReady,
    Exhausted,
    NoSuchEntity,
    EntityInUse,
    EntitySelected,
}

impl SelectStatus {
    /// The code of the value.
    pub open spec fn spec_code(self) -> u8 {
        match self {
            SelectStatus::Success => 0,
            SelectStatus::AlreadyActive => 1,
            SelectStatus::NotReady => 2,
            SelectStatus::Exhausted => 3,
            SelectStatus::NoSuchEntity => 4,
            SelectStatus::EntityInUse => 5,
            SelectStatus::EntitySelected => 6,
        }
    }

    /// The code of the value.
    pub fn code(self) -> (r: u8)
        ensures
            r == self.spec_code(),
    {
        match self {
            SelectStatus::Success => 0,
            SelectStatus::AlreadyActive => 1,
            SelectStatus::NotReady => 2,
            SelectStatus::Exhausted => 3,
            SelectStatus::NoSuchEntity => 4,
            SelectStatus::EntityInUse => 5,
            SelectStatus::EntitySelected => 6,
        }
    }
}

/// The outcome of a deselect request.
#[derive(Debug, Clone, Copy, PartialEq, Eq, Structural)]
pub enum DeselectStatus {
    Success,
    NotEstablished,
    Busy,
}

impl DeselectStatus {
    /// The code of the value.
    pub open spec fn spec_code(self) -> u8 {
        match self {
            DeselectStatus::Success => 0,
            DeselectStatus::NotEstablished => 1,
            DeselectStatus::Busy => 2,
        }
    }

    /// The code of the value.
    pub fn code(self) -> (r: u8)
        ensures
            r == self.spec_code(),
    {
        match self {
            DeselectStatus::Success => 0,
            DeselectStatus::NotEstablished => 1,
            DeselectStatus::Busy => 2,
        }
    }
}

/// Why a message is rejected.
#[derive(Debug, Clone, Copy, PartialEq, Eq, Structural)]
pub enum RejectReason {
    MalformedData,
    UnsupportedSessionType,
    UnsupportedPresentationType,
    TransactionNotOpen,
    EntityNotSelected,
}

impl RejectReason {
    /// The code of the value.
    pub open spec fn spec_code(self) -> u8 {
        match self {
            RejectReason::MalformedData => 0,
            RejectReason::UnsupportedSessionType => 1,
            RejectReason::UnsupportedPresentationType => 2,
            RejectReason::TransactionNotOpen => 3,
            RejectReason::EntityNotSelected => 4,
        }
    }

    /// The code of the value.
    pub fn code(self) -> (r: u8)
        ensures
            r == self.spec_code(),
    {
        match self {
            RejectReason::MalformedData => 0,
            RejectReason::UnsupportedSessionType => 1,
            RejectReason::UnsupportedPresentationType => 2,
            RejectReason::TransactionNotOpen => 3,
            RejectReason::EntityNotSelected => 4,
        }
    }
}

/// The identity of a message: its session ID and system bytes.
#[derive(Debug, Clone, Copy, PartialEq, Eq, Hash, Structural)]
pub struct MessageID {
    pub session: u16,
    pub system: u32,
}

/// The contents of an HSMS message, by kind.
#[derive(Debug)]
pub enum MessageContents {
    /// A data message carrying a SECS-II message.
    DataMessage(SecsMessage),
    SelectRequest,
    /// A select response with a select status code.
    SelectResponse(u8),
    DeselectRequest,
    /// A deselect response with a deselect status code.
    DeselectResponse(u8),
    LinktestRequest,
    LinktestResponse,
    /// A rejection with the presentation or session type of the rejected
    /// message and a reason code.
    RejectRequest(u8, u8),
    SeparateRequest,
}

/// The mathematical value of a [MessageContents].
pub enum MessageContentsV {
    DataMessage(SecsMessageV),
    SelectRequest,
    SelectResponse(u8),
    DeselectRequest,
    DeselectResponse(u8),
    LinktestRequest,
    LinktestResponse,
    RejectRequest(u8, u8),
    SeparateRequest,
}

impl View for MessageContents {
    type V = MessageContentsV;

    open spec fn view(&self) -> MessageContentsV {
        match self {
            MessageContents::DataMessage(m) => MessageContentsV::DataMessage(m@),
            MessageContents::SelectRequest => MessageContentsV::SelectRequest,
            MessageContents::SelectResponse(s) => MessageContentsV::SelectResponse(*s),
            MessageContents::DeselectRequest => MessageContentsV::DeselectRequest,
            MessageContents::DeselectResponse(s) => MessageContentsV::DeselectResponse(*s),
            MessageContents::LinktestRequest => MessageContentsV::LinktestRequest,
            MessageContents::LinktestResponse => MessageContentsV::LinktestResponse,
            MessageContents::RejectRequest(t, r) => MessageContentsV::RejectRequest(*t, *r),
            MessageContents::SeparateRequest => MessageContentsV::SeparateRequest,
        }
    }
}

/// An HSMS message: its identity and its contents.
#[derive(Debug)]
pub struct Message {
    pub id: MessageID,
    pub contents: MessageContents,
}

/// The mathematical value of an [Message].
pub struct MessageV {
    pub id: MessageID,
    pub contents: MessageContentsV,
}

impl View for Message {
    type V = MessageV;

    open spec fn view(&self) -> MessageV {
        MessageV { id: self.id, contents: self.contents@ }
    }
}

/// A primitive message with no text and presentation type 0.
pub open spec fn control_message(
    session_id: u16,
    byte_2: u8,
    byte_3: u8,
    session_type: u8,
    system: u32,
) -> PrimitiveMessageV {
    PrimitiveMessageV {
        header: PrimitiveMessageHeader {
            session_id,
            byte_2,
            byte_3,
            presentation_type: 0,
            session_type,
            system,
        },
        text: Seq::empty(),
    }
}

/// The primitive message that an HSMS message is sent as; a data message's
/// text is the encoding of its body, empty when it has none.
pub open spec fn primitive_of(h: MessageV) -> PrimitiveMessageV {
    let sid = h.id.session;
    let sys = h.id.system;
    match h.contents {
        MessageContentsV::DataMessage(d) => PrimitiveMessageV {
            header: PrimitiveMessageHeader {
                session_id: sid,
                byte_2: data_byte_2(d.w, d.stream),
                byte_3: d.function,
                presentation_type: 0,
                session_type: 0,
                system: sys,
            },
            text: text_of(d.body),
        },
        MessageContentsV::SelectRequest => control_message(sid, 0, 0, 1, sys),
        MessageContentsV::SelectResponse(s) => control_message(sid, 0, s, 2, sys),
        MessageContentsV::DeselectRequest => control_message(sid, 0, 0, 3, sys),
        MessageContentsV::DeselectResponse(s) => control_message(sid, 0, s, 4, sys),
        MessageContentsV::LinktestRequest => control_message(0xFFFF, 0, 0, 5, sys),
        MessageContentsV::LinktestResponse => control_message(0xFFFF, 0, 0, 6, sys),
        MessageContentsV::RejectRequest(t, r) => control_message(sid, t, r, 7, sys),
        MessageContentsV::SeparateRequest => control_message(sid, 0, 0, 9, sys),
    }
}

/// The contents that a received primitive message holds, or why it is
/// rejected: presentation type other than 0, session type unknown, header
/// bytes or text that the session type does not allow, or data message text
/// that is neither empty nor one item.
pub open spec fn contents_of(m: PrimitiveMessageV) -> Result<MessageContentsV, RejectReason> {
    let h = m.header;
    let st = h.session_type;
    let empty = m.text.len() == 0;
    if h.presentation_type != 0 {
        Err(RejectReason::UnsupportedPresentationType)
    } else if st == 0 {
        match body_of(m.text) {
            Some(body) => Ok(
                MessageContentsV::DataMessage(
                    SecsMessageV {
                        stream: stream_of(h.byte_2),
                        function: h.byte_3,
                        w: w_of(h.byte_2),
                        body,
                    },
                ),
            ),
            None => Err(RejectReason::MalformedData),
        }
    } else if st == 1 {
        if h.byte_2 != 0 || h.byte_3 != 0 || !empty {
            Err(RejectReason::MalformedData)
        } else {
            Ok(MessageContentsV::SelectRequest)
        }
    } else if st == 2 {
        if h.byte_2 != 0 || !empty {
            Err(RejectReason::MalformedData)
        } else {
            Ok(MessageContentsV::SelectResponse(h.byte_3))
        }
    } else if st == 3 {
        if h.byte_2 != 0 || h.byte_3 != 0 || !empty {
            Err(RejectReason::MalformedData)
        } else {
            Ok(MessageContentsV::DeselectRequest)
        }
    } else if st == 4 {
        if h.byte_2 != 0 || !empty {
            Err(RejectReason::MalformedData)
        } else {
            Ok(MessageContentsV::DeselectResponse(h.byte_3))
        }
    } else if st == 5 {
        if h.session_id != 0xFFFF || h.byte_2 != 0 || h.byte_3 != 0 || !empty {
            Err(RejectReason::MalformedData)
        } else {
            Ok(MessageContentsV::LinktestRequest)
        }
    } else if st == 6 {
        if h.session_id != 0xFFFF || h.byte_2 != 0 || h.byte_3 != 0 || !empty {
            Err(RejectReason::MalformedData)
        } else {
            Ok(MessageContentsV::LinktestResponse)
        }
    } else if st == 7 {
        if !empty {
            Err(RejectReason::MalformedData)
        } else {
            Ok(MessageContentsV::RejectRequest(h.byte_2, h.byte_3))
        }
    } else if st == 9 {
        if h.byte_2 != 0 || h.byte_3 != 0 || !empty {
            Err(RejectReason::MalformedData)
        } else {
            Ok(MessageContentsV::SeparateRequest)
        }
    } else {
        Err(RejectReason::UnsupportedSessionType)
    }
}

/// The HSMS message that a received primitive message holds, or why it is
/// rejected; its identity is the header's session ID and system bytes.
pub open spec fn hsms_of(m: PrimitiveMessageV) -> Result<MessageV, RejectReason> {
    match contents_of(m) {
        Ok(c) => Ok(MessageV { id: MessageID { session: m.header.session_id, system: m.header.system }, contents: c }),
        Err(e) => Err(e),
    }
}

/// The HSMS messages that can be sent and are received as themselves: a data
/// message's stream leaves the reply bit free and its body has an encoding;
/// linktest messages have session ID 0xFFFF.
pub open spec fn wf_hsms(h: MessageV) -> bool {
    match h.contents {
        MessageContentsV::DataMessage(d) => d.stream < 128 && match d.body {
            Some(item) => wf(item),
            None => true,
        },
        MessageContentsV::LinktestRequest => h.id.session == 0xFFFF,
        MessageContentsV::LinktestResponse => h.id.session == 0xFFFF,
        _ => true,
    }
}

/// The HSMS messages that can be sent: a data message's body has an
/// encoding.
pub open spec fn sendable(h: MessageV) -> bool {
    match h.contents {
        MessageContentsV::DataMessage(d) => match d.body {
            Some(item) => wf(item),
            None => true,
        },
        _ => true,
    }
}

/// Receiving what an HSMS message is sent as gives the message back.
pub proof fn lemma_hsms_roundtrip(h: MessageV)
    requires
        wf_hsms(h),
    ensures
        hsms_of(primitive_of(h)) == Ok::<MessageV, RejectReason>(h),
{
    match h.contents {
        MessageContentsV::DataMessage(d) => {
            lemma_byte_2(d.w, d.stream);
            lemma_body_roundtrip(d.body);
        },
        _ => {},
    }
}

/// A received message that is accepted is well-formed ([wf_hsms]), so that
/// [lemma_hsms_roundtrip] applies to it.
pub proof fn lemma_received_wf(p: PrimitiveMessageV)
    ensures
        hsms_of(p) matches Ok(h) ==> wf_hsms(h),
{
    if hsms_of(p) is Ok {
        lemma_byte_2_back(p.header.byte_2);
        lemma_body_wf(p.text);
    }
}

/// A primitive message with no text and presentation type 0.
fn control(session_id: u16, byte_2: u8, byte_3: u8, session_type: u8, system: u32) -> (r: PrimitiveMessage)
    ensures
        r@ == control_message(session_id, byte_2, byte_3, session_type, system),
{
    let text: Vec<u8> = Vec::new();
    PrimitiveMessage {
        header: PrimitiveMessageHeader {
            session_id,
            byte_2,
            byte_3,
            presentation_type: 0,
            session_type,
            system,
        },
        text,
    }
}

impl Message {
    /// The primitive message that this HSMS message is sent as.
    pub fn into_primitive(self) -> (r: PrimitiveMessage)
        requires
            sendable(self@),
        ensures
            r@ == primitive_of(self@),
    {
        let sid = self.id.session;
        let sys = self.id.system;
        match self.contents {
            MessageContents::DataMessage(d) => {
                let flag: u8 = if d.w { 0x80 } else { 0 };
                let text = text_bytes(d.body);
                PrimitiveMessage {
                    header: PrimitiveMessageHeader {
                        session_id: sid,
                        byte_2: flag | d.stream,
                        byte_3: d.function,
                        presentation_type: PresentationType::SecsII.code(),
                        session_type: SessionType::DataMessage.code(),
                        system: sys,
                    },
                    text,
                }
            },
            MessageContents::SelectRequest => control(sid, 0, 0, SessionType::SelectRequest.code(), sys),
            MessageContents::SelectResponse(s) => control(sid, 0, s, SessionType::SelectResponse.code(), sys),
            MessageContents::DeselectRequest => control(sid, 0, 0, SessionType::DeselectRequest.code(), sys),
            MessageContents::DeselectResponse(s) => control(sid, 0, s, SessionType::DeselectResponse.code(), sys),
            MessageContents::LinktestRequest => control(0xFFFF, 0, 0, SessionType::LinktestRequest.code(), sys),
            MessageContents::LinktestResponse => control(0xFFFF, 0, 0, SessionType::LinktestResponse.code(), sys),
            MessageContents::RejectRequest(t, r) => control(sid, t, r, SessionType::RejectRequest.code(), sys),
            MessageContents::SeparateRequest => control(sid, 0, 0, SessionType::SeparateRequest.code(), sys),
        }
    }

    /// The HSMS message that a received primitive message holds, or why it
    /// is rejected.
    pub fn try_from_primitive(message: PrimitiveMessage) -> (r: Result<Message, RejectReason>)
        ensures
            match r {
                Ok(h) => hsms_of(message@) == Ok::<MessageV, RejectReason>(h@),
                Err(e) => hsms_of(message@) == Err::<MessageV, RejectReason>(e),
            },
    {
        let h = message.header;
        let id = MessageID { session: h.session_id, system: h.system };
        let empty = message.text.len() == 0;
        if h.presentation_type != 0 {
            return Err(RejectReason::UnsupportedPresentationType);
        }
        let contents = match h.session_type {
            0 => match text_body(message.text) {
                Some(body) => MessageContents::DataMessage(
                    SecsMessage {
                        stream: h.byte_2 & 0x7f,
                        function: h.byte_3,
                        w: h.byte_2 & 0x80 > 0,
                        body,
                    },
                ),
                None => {
                    return Err(RejectReason::MalformedData);
                },
            },
            1 => if h.byte_2 != 0 || h.byte_3 != 0 || !empty {
                return Err(RejectReason::MalformedData);
            } else {
                MessageContents::SelectRequest
            },
            2 => if h.byte_2 != 0 || !empty {
                return Err(RejectReason::MalformedData);
            } else {
                MessageContents::SelectResponse(h.byte_3)
            },
            3 => if h.byte_2 != 0 || h.byte_3 != 0 || !empty {
                return Err(RejectReason::MalformedData);
            } else {
                MessageContents::DeselectRequest
            },
            4 => if h.byte_2 != 0 || !empty {
                return Err(RejectReason::MalformedData);
            } else {
                MessageContents::DeselectResponse(h.byte_3)
            },
            5 => if h.session_id != 0xFFFF || h.byte_2 != 0 || h.byte_3 != 0 || !empty {
                return Err(RejectReason::MalformedData);
            } else {
                MessageContents::LinktestRequest
            },
            6 => if h.session_id != 0xFFFF || h.byte_2 != 0 || h.byte_3 != 0 || !empty {
                return Err(RejectReason::MalformedData);
            } else {
                MessageContents::LinktestResponse
            },
            7 => if !empty {
                return Err(RejectReason::MalformedData);
            } else {
                MessageContents::RejectRequest(h.byte_2, h.byte_3)
            },
            9 => if h.byte_2 != 0 || h.byte_3 != 0 || !empty {
                return Err(RejectReason::MalformedData);
            } else {
                MessageContents::SeparateRequest
            },
            _ => {
                return Err(RejectReason::UnsupportedSessionType);
            },
        };
        Ok(Message { id, contents })
    }
}

/// The selection bookkeeping of a client: its selection state and the number
/// of selections that have completed and not ended.
#[derive(Debug, Clone, Copy, PartialEq, Eq, Structural)]
pub struct Selection {
    pub state: SelectionState,
    pub count: u16,
}

impl Selection {
    /// A client is selected exactly when some selection has completed and
    /// not ended.
    pub open spec fn inv(self) -> bool {
        (self.state == SelectionState::Selected) == (self.count > 0)
    }

    /// The bookkeeping of a new or disconnected client.
    pub fn not_selected() -> (r: Self)
        ensures
            r == (Selection { state: SelectionState::NotSelected, count: 0 }),
            r.inv(),
    {
        Selection { state: SelectionState::NotSelected, count: 0 }
    }
}

/// The choices that the user of a client makes as the responding entity of
/// the select, deselect and separate procedures, one callback each. A client
/// calls each with the session ID of the request and the current selection
/// count, when [receive_action] asks it to consult that callback.
#[derive(Clone)]
pub struct ProcedureCallbacks<S, D, P> {
    /// Gives the status of the select response to send; a success increments
    /// the selection count (see [select_response]).
    pub select: S,
    /// Gives the status of the deselect response to send; a success
    /// decrements the selection count (see [deselect_response]).
    pub deselect: D,
    /// Gives whether to decrement the selection count (see
    /// [separate_outcome]).
    pub separate: P,
}

/// Why a procedure of the generic client fails.
#[derive(Debug, Clone, Copy, PartialEq, Eq, Structural)]
pub enum ProcedureError {
    /// The selection state does not allow the procedure.
    AlreadyExists,
    /// The other entity refused or rejected the request.
    PermissionDenied,
    /// The reply is of the wrong kind.
    InvalidData,
    /// No reply came; the connection is dropped.
    ConnectionAborted,
}

/// What the receive procedure does with a received message.
#[derive(Debug)]
pub enum ReceiveAction {
    /// Hand the primary data message to the application.
    Deliver(MessageID, SecsMessage),
    /// Complete the open transaction with the message's ID with the message.
    Complete(Message),
    /// Transmit the message.
    Transmit(Message),
    /// Ask the select callback about the select request with this ID, then
    /// finish with [select_response].
    ConsultSelect(MessageID),
    /// Ask the deselect callback about the deselect request with this ID,
    /// then finish with [deselect_response].
    ConsultDeselect(MessageID),
    /// Ask the separate callback about the separate request with this ID,
    /// then finish with [separate_outcome].
    ConsultSeparate(MessageID),
    /// Nothing to do.
    Ignore,
}

/// The mathematical value of a [ReceiveAction].
pub enum ReceiveActionV {
    Deliver(MessageID, SecsMessageV),
    Complete(MessageV),
    Transmit(MessageV),
    ConsultSelect(MessageID),
    ConsultDeselect(MessageID),
    ConsultSeparate(MessageID),
    Ignore,
}

impl View for ReceiveAction {
    type V = ReceiveActionV;

    open spec fn view(&self) -> ReceiveActionV {
        match self {
            ReceiveAction::Deliver(id, m) => ReceiveActionV::Deliver(*id, m@),
            ReceiveAction::Complete(m) => ReceiveActionV::Complete(m@),
            ReceiveAction::Transmit(m) => ReceiveActionV::Transmit(m@),
            ReceiveAction::ConsultSelect(id) => ReceiveActionV::ConsultSelect(*id),
            ReceiveAction::ConsultDeselect(id) => ReceiveActionV::ConsultDeselect(*id),
            ReceiveAction::ConsultSeparate(id) => ReceiveActionV::ConsultSeparate(*id),
            ReceiveAction::Ignore => ReceiveActionV::Ignore,
        }
    }
}

/// A rejection of the message with this ID.
pub open spec fn reject_of(id: MessageID, message_type: u8, reason: RejectReason) -> MessageV {
    MessageV { id, contents: MessageContentsV::RejectRequest(message_type, reason.spec_code()) }
}

/// A reply to a transaction this client opened: it completes the transaction
/// if one is open with its ID, else it is rejected.
pub open spec fn reply_action(open: Seq<MessageID>, m: MessageV) -> ReceiveActionV {
    if open.contains(m.id) {
        ReceiveActionV::Complete(m)
    } else {
        ReceiveActionV::Transmit(reject_of(m.id, 0, RejectReason::TransactionNotOpen))
    }
}

/// What the receive procedure does with a received primitive message, given
/// the selection, the IDs of the open transactions, and whether the
/// selection lock was free.
pub open spec fn receive_spec(
    selection: Selection,
    open: Seq<MessageID>,
    lock_acquired: bool,
    p: PrimitiveMessageV,
) -> ReceiveActionV {
    match hsms_of(p) {
        Err(reason) => ReceiveActionV::Transmit(
            reject_of(
                MessageID { session: p.header.session_id, system: p.header.system },
                if reason == RejectReason::UnsupportedPresentationType {
                    p.header.presentation_type
                } else {
                    p.header.session_type
                },
                reason,
            ),
        ),
        Ok(m) => match m.contents {
            MessageContentsV::DataMessage(data) => if selection.state == SelectionState::Selected {
                if data.function % 2 == 1 {
                    ReceiveActionV::Deliver(m.id, data)
                } else {
                    reply_action(open, m)
                }
            } else {
                ReceiveActionV::Transmit(reject_of(m.id, 0, RejectReason::EntityNotSelected))
            },
            MessageContentsV::SelectRequest => if lock_acquired {
                ReceiveActionV::ConsultSelect(m.id)
            } else {
                ReceiveActionV::Ignore
            },
            MessageContentsV::DeselectRequest => if !lock_acquired {
                ReceiveActionV::Ignore
            } else if selection.count > 0 {
                ReceiveActionV::ConsultDeselect(m.id)
            } else {
                ReceiveActionV::Transmit(
                    MessageV {
                        id: m.id,
                        contents: MessageContentsV::DeselectResponse(
                            DeselectStatus::NotEstablished.spec_code(),
                        ),
                    },
                )
            },
            MessageContentsV::LinktestRequest => ReceiveActionV::Transmit(
                MessageV { id: m.id, contents: MessageContentsV::LinktestResponse },
            ),
            MessageContentsV::SeparateRequest => if selection.count > 0 {
                ReceiveActionV::ConsultSeparate(m.id)
            } else {
                ReceiveActionV::Ignore
            },
            _ => reply_action(open, m),
        },
    }
}

/// Whether the list of IDs holds `id`.
fn contains_id(open: &Vec<MessageID>, id: MessageID) -> (r: bool)
    ensures
        r == open@.contains(id),
{
    let mut i: usize = 0;
    while i < open.len()
        invariant
            i <= open.len(),
            forall|j: int| 0 <= j < i ==> open@[j] != id,
        decreases open.len() - i,
    {
        if open[i] == id {
            return true;
        }
        i = i + 1;
    }
    false
}

/// A rejection of the message with this ID.
fn reject(id: MessageID, message_type: u8, reason: RejectReason) -> (r: Message)
    ensures
        r@ == reject_of(id, message_type, reason),
{
    Message { id, contents: MessageContents::RejectRequest(message_type, reason.code()) }
}

/// The action for a reply to a transaction this client opened.
fn reply(open: &Vec<MessageID>, m: Message) -> (r: ReceiveAction)
    ensures
        r@ == reply_action(open@, m@),
{
    if contains_id(open, m.id) {
        ReceiveAction::Complete(m)
    } else {
        ReceiveAction::Transmit(reject(m.id, 0, RejectReason::TransactionNotOpen))
    }
}

/// What the receive procedure does with a received primitive message.
///
/// A message that does not convert is rejected; a primary data message is
/// delivered when selected; replies complete open transactions or are
/// rejected; requests from the other entity are answered or passed to the
/// procedure callbacks.
pub fn receive_action(
    selection: Selection,
    open: &Vec<MessageID>,
    lock_acquired: bool,
    p: PrimitiveMessage,
) -> (r: ReceiveAction)
    ensures
        r@ == receive_spec(selection, open@, lock_acquired, p@),
{
    let header = p.header;
    match Message::try_from_primitive(p) {
        Err(reason) => {
            let message_type = match reason {
                RejectReason::UnsupportedPresentationType => header.presentation_type,
                _ => header.session_type,
            };
            ReceiveAction::Transmit(
                reject(MessageID { session: header.session_id, system: header.system }, message_type, reason),
            )
        },
        Ok(m) => {
            let id = m.id;
            match m.contents {
                MessageContents::DataMessage(data) => match selection.state {
                    SelectionState::Selected => if data.function % 2 == 1 {
                        ReceiveAction::Deliver(id, data)
                    } else {
                        reply(open, Message { id, contents: MessageContents::DataMessage(data) })
                    },
                    SelectionState::NotSelected => ReceiveAction::Transmit(
                        reject(id, 0, RejectReason::EntityNotSelected),
                    ),
                },
                MessageContents::SelectRequest => if lock_acquired {
                    ReceiveAction::ConsultSelect(id)
                } else {
                    ReceiveAction::Ignore
                },
                MessageContents::DeselectRequest => if !lock_acquired {
                    ReceiveAction::Ignore
                } else if selection.count > 0 {
                    ReceiveAction::ConsultDeselect(id)
                } else {
                    ReceiveAction::Transmit(
                        Message {
                            id,
                            contents: MessageContents::DeselectResponse(
                                DeselectStatus::NotEstablished.code(),
                            ),
                        },
                    )
                },
                MessageContents::LinktestRequest => ReceiveAction::Transmit(
                    Message { id, contents: MessageContents::LinktestResponse },
                ),
                MessageContents::SeparateRequest => if selection.count > 0 {
                    ReceiveAction::ConsultSeparate(id)
                } else {
                    ReceiveAction::Ignore
                },
                MessageContents::SelectResponse(s) => reply(
                    open,
                    Message { id, contents: MessageContents::SelectResponse(s) },
                ),
                MessageContents::DeselectResponse(s) => reply(
                    open,
                    Message { id, contents: MessageContents::DeselectResponse(s) },
                ),
                MessageContents::LinktestResponse => reply(
                    open,
                    Message { id, contents: MessageContents::LinktestResponse },
                ),
                MessageContents::RejectRequest(t, c) => reply(
                    open,
                    Message { id, contents: MessageContents::RejectRequest(t, c) },
                ),
            }
        },
    }
}

/// Answers a select request as the select callback decided: a successful
/// select adds a selection.
pub fn select_response(selection: Selection, id: MessageID, status: SelectStatus) -> (r: (
    Selection,
    Message,
))
    requires
        selection.inv(),
        status == SelectStatus::Success ==> selection.count < u16::MAX,
    ensures
        r.0 == (if status == SelectStatus::Success {
            Selection { state: SelectionState::Selected, count: (selection.count + 1) as u16 }
        } else {
            selection
        }),
        r.0.inv(),
        r.1@ == (MessageV { id, contents: MessageContentsV::SelectResponse(status.spec_code()) }),
{
    let next = match status {
        SelectStatus::Success => Selection {
            state: SelectionState::Selected,
            count: selection.count + 1,
        },
        _ => selection,
    };
    (next, Message { id, contents: MessageContents::SelectResponse(status.code()) })
}

/// The bookkeeping after one selection ends.
pub open spec fn end_selection(selection: Selection) -> Selection {
    let count = (selection.count - 1) as u16;
    Selection {
        state: if count == 0 { SelectionState::NotSelected } else { selection.state },
        count,
    }
}

/// Ends one selection.
fn end_one(selection: Selection) -> (r: Selection)
    requires
        selection.inv(),
        selection.count > 0,
    ensures
        r == end_selection(selection),
        r.inv(),
{
    let count = selection.count - 1;
    Selection {
        state: if count == 0 { SelectionState::NotSelected } else { selection.state },
        count,
    }
}

/// Answers a deselect request as the deselect callback decided: a successful
/// deselect ends a selection.
pub fn deselect_response(selection: Selection, id: MessageID, status: DeselectStatus) -> (r: (
    Selection,
    Message,
))
    requires
        selection.inv(),
        selection.count > 0,
    ensures
        r.0 == (if status == DeselectStatus::Success {
            end_selection(selection)
        } else {
            selection
        }),
        r.0.inv(),
        r.1@ == (MessageV { id, contents: MessageContentsV::DeselectResponse(status.spec_code()) }),
{
    let next = match status {
        DeselectStatus::Success => end_one(selection),
        _ => selection,
    };
    (next, Message { id, contents: MessageContents::DeselectResponse(status.code()) })
}

/// The bookkeeping after a separate, as the separate callback or the local
/// separate procedure decided: a decrement ends a selection.
pub fn separate_outcome(selection: Selection, decrement: bool) -> (r: Selection)
    requires
        selection.inv(),
        selection.count > 0,
    ensures
        r == (if decrement {
            end_selection(selection)
        } else {
            selection
        }),
        r.inv(),
{
    if decrement {
        end_one(selection)
    } else {
        selection
    }
}

/// The data, select, deselect and separate procedures need the selected
/// state.
pub fn require_selected(state: SelectionState) -> (r: Result<(), ProcedureError>)
    ensures
        r == (if state == SelectionState::Selected {
            Ok::<(), ProcedureError>(())
        } else {
            Err::<(), ProcedureError>(ProcedureError::AlreadyExists)
        }),
{
    match state {
        SelectionState::Selected => Ok(()),
        SelectionState::NotSelected => Err(ProcedureError::AlreadyExists),
    }
}

/// Whether a reply is expected to a data message: it is primary (odd
/// function) and requests one.
pub fn reply_expected(message: &SecsMessage) -> (r: bool)
    ensures
        r == (message.function % 2 == 1 && message.w),
{
    message.function % 2 == 1 && message.w
}

/// The value of an optional data message.
pub open spec fn secs_view(m: Option<SecsMessage>) -> Option<SecsMessageV> {
    match m {
        Some(x) => Some(x@),
        None => None,
    }
}

/// The outcome of the data procedure, given whether a reply was expected and
/// the reply, if one came: whether to disconnect, and the result.
pub open spec fn data_spec(reply_expected: bool, reply: Option<MessageV>) -> (bool, Result<Option<SecsMessageV>, ProcedureError>) {
    match reply {
        Some(m) => match m.contents {
            MessageContentsV::DataMessage(d) => (false, Ok(Some(d))),
            MessageContentsV::RejectRequest(_, _) => (false, Err(ProcedureError::PermissionDenied)),
            _ => (false, Err(ProcedureError::InvalidData)),
        },
        None => if reply_expected {
            (true, Err(ProcedureError::ConnectionAborted))
        } else {
            (false, Ok(None))
        },
    }
}

/// The value of an optional message.
pub open spec fn reply_view(m: Option<Message>) -> Option<MessageV> {
    match m {
        Some(x) => Some(x@),
        None => None,
    }
}

/// The outcome of the data procedure: a data reply is returned, a rejection
/// or another reply fails it, and a missing expected reply drops the
/// connection.
pub fn data_outcome(reply_expected: bool, reply: Option<Message>) -> (r: (
    bool,
    Result<Option<SecsMessage>, ProcedureError>,
))
    ensures
        ({
            let s = data_spec(reply_expected, reply_view(reply));
            &&& r.0 == s.0
            &&& match r.1 {
                Ok(m) => s.1 == Ok::<Option<SecsMessageV>, ProcedureError>(secs_view(m)),
                Err(e) => s.1 == Err::<Option<SecsMessageV>, ProcedureError>(e),
            }
        }),
{
    match reply {
        Some(m) => match m.contents {
            MessageContents::DataMessage(d) => (false, Ok(Some(d))),
            MessageContents::RejectRequest(_, _) => (false, Err(ProcedureError::PermissionDenied)),
            _ => (false, Err(ProcedureError::InvalidData)),
        },
        None => if reply_expected {
            (true, Err(ProcedureError::ConnectionAborted))
        } else {
            (false, Ok(None))
        },
    }
}

/// The outcome of the select procedure, given the reply if one came: the
/// bookkeeping, whether to disconnect, and the result. A successful select
/// response adds a selection.
pub fn select_outcome(selection: Selection, reply: Option<Message>) -> (r: (
    Selection,
    bool,
    Result<(), ProcedureError>,
))
    requires
        selection.inv(),
        reply_view(reply) matches Some(m) && m.contents == MessageContentsV::SelectResponse(0)
            ==> selection.count < u16::MAX,
    ensures
        r.0.inv(),
        match reply_view(reply) {
            None => r == (selection, true, Err::<(), ProcedureError>(ProcedureError::ConnectionAborted)),
            Some(m) => match m.contents {
                MessageContentsV::SelectResponse(s) => if s == 0 {
                    r == (
                        Selection { state: SelectionState::Selected, count: (selection.count + 1) as u16 },
                        false,
                        Ok::<(), ProcedureError>(()),
                    )
                } else {
                    r == (selection, false, Err::<(), ProcedureError>(ProcedureError::PermissionDenied))
                },
                MessageContentsV::RejectRequest(_, _) => r == (
                    selection,
                    false,
                    Err::<(), ProcedureError>(ProcedureError::PermissionDenied),
                ),
                _ => r == (selection, false, Err::<(), ProcedureError>(ProcedureError::InvalidData)),
            },
        },
{
    match reply {
        None => (selection, true, Err(ProcedureError::ConnectionAborted)),
        Some(m) => match m.contents {
            MessageContents::SelectResponse(s) => if s == SelectStatus::Success.code() {
                (
                    Selection { state: SelectionState::Selected, count: selection.count + 1 },
                    false,
                    Ok(()),
                )
            } else {
                (selection, false, Err(ProcedureError::PermissionDenied))
            },
            MessageContents::RejectRequest(_, _) => (selection, false, Err(ProcedureError::PermissionDenied)),
            _ => (selection, false, Err(ProcedureError::InvalidData)),
        },
    }
}

/// The outcome of the deselect procedure, given the reply if one came: the
/// bookkeeping, whether to disconnect, and the result. A successful deselect
/// response ends a selection.
pub fn deselect_outcome(selection: Selection, reply: Option<Message>) -> (r: (
    Selection,
    bool,
    Result<(), ProcedureError>,
))
    requires
        selection.inv(),
        reply_view(reply) matches Some(m) && m.contents == MessageContentsV::DeselectResponse(0)
            ==> selection.count > 0,
    ensures
        r.0.inv(),
        match reply_view(reply) {
            None => r == (selection, true, Err::<(), ProcedureError>(ProcedureError::ConnectionAborted)),
            Some(m) => match m.contents {
                MessageContentsV::DeselectResponse(s) => if s == 0 {
                    r == (end_selection(selection), false, Ok::<(), ProcedureError>(()))
                } else {
                    r == (selection, false, Err::<(), ProcedureError>(ProcedureError::PermissionDenied))
                },
                MessageContentsV::RejectRequest(_, _) => r == (
                    selection,
                    false,
                    Err::<(), ProcedureError>(ProcedureError::PermissionDenied),
                ),
                _ => r == (selection, false, Err::<(), ProcedureError>(ProcedureError::InvalidData)),
            },
        },
{
    match reply {
        None => (selection, true, Err(ProcedureError::ConnectionAborted)),
        Some(m) => match m.contents {
            MessageContents::DeselectResponse(s) => if s == DeselectStatus::Success.code() {
                (end_one(selection), false, Ok(()))
            } else {
                (selection, false, Err(ProcedureError::PermissionDenied))
            },
            MessageContents::RejectRequest(_, _) => (selection, false, Err(ProcedureError::PermissionDenied)),
            _ => (selection, false, Err(ProcedureError::InvalidData)),
        },
    }
}

/// The outcome of the linktest procedure, given the reply if one came:
/// whether to disconnect, and the result.
pub fn linktest_outcome(reply: Option<Message>) -> (r: (bool, Result<(), ProcedureError>))
    ensures
        match reply_view(reply) {
            None => r == (true, Err::<(), ProcedureError>(ProcedureError::ConnectionAborted)),
            Some(m) => match m.contents {
                MessageContentsV::LinktestResponse => r == (false, Ok::<(), ProcedureError>(())),
                MessageContentsV::RejectRequest(_, _) => r == (
                    false,
                    Err::<(), ProcedureError>(ProcedureError::PermissionDenied),
                ),
                _ => r == (false, Err::<(), ProcedureError>(ProcedureError::InvalidData)),
            },
        },
{
    match reply {
        None => (true, Err(ProcedureError::ConnectionAborted)),
        Some(m) => match m.contents {
            MessageContents::LinktestResponse => (false, Ok(())),
            MessageContents::RejectRequest(_, _) => (false, Err(ProcedureError::PermissionDenied)),
            _ => (false, Err(ProcedureError::InvalidData)),
        },
    }
}

/// The parameter settings of a client (SEMI E37 section 10.2): connection
/// mode and timeouts.
#[derive(Debug, Clone, Copy)]
pub struct ParameterSettings {
    pub connect_mode: ConnectionMode,
    /// Reply timeout.
    pub t3: std::time::Duration,
    /// Connection separation timeout.
    pub t5: std::time::Duration,
    /// Control transaction timeout.
    pub t6: std::time::Duration,
    /// Not-selected timeout.
    pub t7: std::time::Duration,
    /// Network intercharacter timeout.
    pub t8: std::time::Duration,
}

impl Default for ParameterSettings {
    /// The default settings: passive mode, and T3 45 s, T5 10 s, T6 5 s,
    /// T7 10 s, T8 5 s.
    fn default() -> (r: Self)
        ensures
            r.connect_mode == ConnectionMode::Passive,
            r.t3 == duration_from_secs(45),
            r.t5 == duration_from_secs(10),
            r.t6 == duration_from_secs(5),
            r.t7 == duration_from_secs(10),
            r.t8 == duration_from_secs(5),
    {
        ParameterSettings {
            connect_mode: ConnectionMode::default(),
            t3: seconds(45),
            t5: seconds(10),
            t6: seconds(5),
            t7: seconds(10),
            t8: seconds(5),
        }
    }
}

/// The codes of session types, select and deselect statuses and reject
/// reasons (SEMI E37 section 8).
pub proof fn lemma_codes()
    ensures
        SessionType::DataMessage.spec_code() == 0,
        SessionType::SelectRequest.spec_code() == 1,
        SessionType::SelectResponse.spec_code() == 2,
        SessionType::DeselectRequest.spec_code() == 3,
        SessionType::DeselectResponse.spec_code() == 4,
        SessionType::LinktestRequest.spec_code() == 5,
        SessionType::LinktestResponse.spec_code() == 6,
        SessionType::RejectRequest.spec_code() == 7,
        SessionType::SeparateRequest.spec_code() == 9,
        SelectStatus::Success.spec_code() == 0,
        SelectStatus::AlreadyActive.spec_code() == 1,
        SelectStatus::NotReady.spec_code() == 2,
        SelectStatus::Exhausted.spec_code() == 3,
        SelectStatus::NoSuchEntity.spec_code() == 4,
        SelectStatus::EntityInUse.spec_code() == 5,
        SelectStatus::EntitySelected.spec_code() == 6,
        DeselectStatus::Success.spec_code() == 0,
        DeselectStatus::NotEstablished.spec_code() == 1,
        DeselectStatus::Busy.spec_code() == 2,
        RejectReason::MalformedData.spec_code() == 0,
        RejectReason::UnsupportedSessionType.spec_code() == 1,
        RejectReason::UnsupportedPresentationType.spec_code() == 2,
        RejectReason::TransactionNotOpen.spec_code() == 3,
        RejectReason::EntityNotSelected.spec_code() == 4,
{
}

} // verus!
