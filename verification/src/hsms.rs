//! HSMS message transfer (SEMI E37): message headers and their bytes, the
//! HSMS message kinds and their conversions, and the decisions of the
//! primitive and generic clients.
use vstd::prelude::*;

pub mod laws;
pub mod single_selected_session;
use crate::frame::{duration_from_secs, seconds};
use crate::secs_ii::codec::u32_of;
use crate::frame::{lemma_wire_read, wire_seq};
use crate::frame::{
    length_bytes, length_seq, header_bytes, header_seq, lemma_header_bytes, lemma_header_fields, read_session_id,
    read_system, session_id_of, system_of,
};

verus! {

/// The selection state of a connection.
#[derive(Debug, Clone, Copy, PartialEq, Eq, Structural)]
pub enum SelectionState {
    /// No session is selected.
    NotSelected,
    /// The session with this ID is selected.
    Selected(u16),
}

impl Default for SelectionState {
    /// The initial state: not selected.
    fn default() -> (r: Self)
        ensures
            r == SelectionState::NotSelected,
    {
        SelectionState::NotSelected
    }
}

/// A change of connection or selection state that a procedure made.
#[derive(Debug, Clone, Copy, PartialEq, Eq, Structural)]
pub enum ConnectionStateTransition {
    /// No change of state.
    NoTransition,
    NotConnected,
    NotConnectedToNotSelected,
    ConnectedToNotConnected,
    NotSelectedToSelected,
    SelectedToNotSelected,
    NotSelectedToNotConnected,
}

/// How a connection is established: by accepting one (passive) or by
/// initiating one (active).
#[derive(Debug, Clone, Copy, PartialEq, Eq, Structural)]
pub enum ConnectionMode {
    Passive,
    Active,
}

impl Default for ConnectionMode {
    /// The default mode: passive.
    fn default() -> (r: Self)
        ensures
            r == ConnectionMode::Passive,
    {
        ConnectionMode::Passive
    }
}

/// The header of a message (SEMI E37 section 8.2).
#[derive(Debug, Clone, Copy, PartialEq, Eq, Structural)]
pub struct MessageHeader {
    pub session_id: u16,
    pub byte_2: u8,
    pub byte_3: u8,
    pub presentation_type: u8,
    pub session_type: u8,
    pub system: u32,
}

impl MessageHeader {
    /// The 10 bytes of the header.
    pub open spec fn spec_bytes(self) -> Seq<u8> {
        header_seq(
            self.session_id,
            self.byte_2,
            self.byte_3,
            self.presentation_type,
            self.session_type,
            self.system,
        )
    }

    /// The header that 10 bytes hold.
    pub open spec fn spec_from_bytes(b: Seq<u8>) -> MessageHeader {
        MessageHeader {
            session_id: session_id_of(b),
            byte_2: b[2],
            byte_3: b[3],
            presentation_type: b[4],
            session_type: b[5],
            system: system_of(b),
        }
    }

    /// The 10 bytes of the header.
    pub fn to_bytes(self) -> (r: [u8; 10])
        ensures
            r@ == self.spec_bytes(),
    {
        header_bytes(
            self.session_id,
            self.byte_2,
            self.byte_3,
            self.presentation_type,
            self.session_type,
            self.system,
        )
    }

    /// The header that 10 bytes hold.
    pub fn from_bytes(bytes: [u8; 10]) -> (r: Self)
        ensures
            r == Self::spec_from_bytes(bytes@),
    {
        MessageHeader {
            session_id: read_session_id(&bytes),
            byte_2: bytes[2],
            byte_3: bytes[3],
            presentation_type: bytes[4],
            session_type: bytes[5],
            system: read_system(&bytes),
        }
    }
}

impl From<MessageHeader> for [u8; 10] {
    /// The 10 bytes of the header.
    fn from(header: MessageHeader) -> (r: [u8; 10]) {
        header.to_bytes()
    }
}

impl vstd::std_specs::convert::FromSpecImpl<MessageHeader> for [u8; 10] {
    open spec fn obeys_from_spec() -> bool {
        true
    }

    open spec fn from_spec(header: MessageHeader) -> [u8; 10] {
        choose|b: [u8; 10]| b@ == header.spec_bytes()
    }
}

impl From<[u8; 10]> for MessageHeader {
    /// The header that 10 bytes hold.
    fn from(bytes: [u8; 10]) -> (r: MessageHeader) {
        MessageHeader::from_bytes(bytes)
    }
}

impl vstd::std_specs::convert::FromSpecImpl<[u8; 10]> for MessageHeader {
    open spec fn obeys_from_spec() -> bool {
        true
    }

    open spec fn from_spec(bytes: [u8; 10]) -> MessageHeader {
        MessageHeader::spec_from_bytes(bytes@)
    }
}

/// Reading the bytes of a header gives the header back.
pub proof fn lemma_header_roundtrip(h: MessageHeader)
    ensures
        MessageHeader::spec_from_bytes(h.spec_bytes()) == h,
{
    lemma_header_fields(
        h.session_id,
        h.byte_2,
        h.byte_3,
        h.presentation_type,
        h.session_type,
        h.system,
    );
}

/// Writing the header that 10 bytes hold gives the bytes back.
pub proof fn lemma_bytes_roundtrip(b: Seq<u8>)
    requires
        b.len() == 10,
    ensures
        MessageHeader::spec_from_bytes(b).spec_bytes() == b,
{
    lemma_header_bytes(b);
}

/// A message as it is transferred: a header and the message text.
#[derive(Debug)]
pub struct Message {
    pub header: MessageHeader,
    pub text: Vec<u8>,
}

/// The mathematical value of a [Message].
pub struct MessageV {
    pub header: MessageHeader,
    pub text: Seq<u8>,
}

impl View for Message {
    type V = MessageV;

    open spec fn view(&self) -> MessageV {
        MessageV { header: self.header, text: self.text@ }
    }
}

/// The bytes of a message: its header, then its text.
pub open spec fn message_bytes(m: MessageV) -> Seq<u8> {
    m.header.spec_bytes() + m.text
}

/// The message that bytes hold, if there are at least the 10 of a header.
pub open spec fn message_of_bytes(b: Seq<u8>) -> Option<MessageV> {
    if b.len() < 10 {
        None
    } else {
        Some(
            MessageV {
                header: MessageHeader::spec_from_bytes(b.subrange(0, 10)),
                text: b.skip(10),
            },
        )
    }
}

impl Message {
    /// The bytes of the message: its header, then its text.
    pub fn to_bytes(&self) -> (r: Vec<u8>)
        ensures
            r@ == message_bytes(self@),
    {
        let hb = self.header.to_bytes();
        let mut v: Vec<u8> = Vec::new();
        let mut i: usize = 0;
        while i < 10
            invariant
                i <= 10,
                hb@.len() == 10,
                v@ =~= hb@.take(i as int),
            decreases 10 - i,
        {
            v.push(hb[i]);
            i = i + 1;
        }
        let mut j: usize = 0;
        while j < self.text.len()
            invariant
                j <= self.text.len(),
                hb@.len() == 10,
                v@ =~= hb@ + self.text@.take(j as int),
            decreases self.text.len() - j,
        {
            v.push(self.text[j]);
            j = j + 1;
        }
        assert(v@ =~= message_bytes(self@));
        v
    }

    /// The message that `bytes` hold; fewer than the 10 bytes of a header
    /// give `Err(())`.
    pub fn try_from_bytes(bytes: Vec<u8>) -> (r: Result<Message, ()>)
        ensures
            match r {
                Ok(m) => message_of_bytes(bytes@) == Some(m@),
                Err(_) => message_of_bytes(bytes@) is None,
            },
    {
        if bytes.len() < 10 {
            return Err(());
        }
        let hb: [u8; 10] = [
            bytes[0],
            bytes[1],
            bytes[2],
            bytes[3],
            bytes[4],
            bytes[5],
            bytes[6],
            bytes[7],
            bytes[8],
            bytes[9],
        ];
        assert(hb@ =~= bytes@.subrange(0, 10));
        let mut text: Vec<u8> = Vec::new();
        let mut j: usize = 10;
        while j < bytes.len()
            invariant
                10 <= j <= bytes.len(),
                text@ =~= bytes@.subrange(10, j as int),
            decreases bytes.len() - j,
        {
            text.push(bytes[j]);
            j = j + 1;
        }
        Ok(Message { header: MessageHeader::from_bytes(hb), text })
    }
}

/// Reading the bytes of a message gives the message back.
pub proof fn lemma_message_roundtrip(m: MessageV)
    ensures
        message_of_bytes(message_bytes(m)) == Some(m),
{
    let b = message_bytes(m);
    lemma_header_roundtrip(m.header);
    assert(b.subrange(0, 10) =~= m.header.spec_bytes());
    assert(b.skip(10) =~= m.text);
}

/// Writing the message that bytes hold gives the bytes back.
pub proof fn lemma_bytes_message_roundtrip(b: Seq<u8>)
    requires
        b.len() >= 10,
    ensures
        message_of_bytes(b) matches Some(m) && message_bytes(m) == b,
{
    lemma_bytes_roundtrip(b.subrange(0, 10));
    assert(b.subrange(0, 10) + b.skip(10) =~= b);
}

/// The presentation type of a message.
#[derive(Debug, Clone, Copy, PartialEq, Eq, Structural)]
pub enum PresentationType {
    /// SECS-II encoding, code 0.
    SecsII,
}

impl PresentationType {
    /// The code of the presentation type.
    pub fn code(self) -> (r: u8)
        ensures
            r == 0,
    {
        0
    }
}

/// The session type of a message: the kind of message it is.
#[derive(Debug, Clone, Copy, PartialEq, Eq, Structural)]
pub enum SessionType {
    DataMessage,
    SelectRequest,
    SelectResponse,
    DeselectRequest,
    DeselectResponse,
    LinktestRequest,
    LinktestResponse,
    RejectRequest,
    SeparateRequest,
}

impl SessionType {
    /// The code of the session type (SEMI E37 table 2).
    pub open spec fn spec_code(self) -> u8 {
        match self {
            SessionType::DataMessage => 0,
            SessionType::SelectRequest => 1,
            SessionType::SelectResponse => 2,
            SessionType::DeselectRequest => 3,
            SessionType::DeselectResponse => 4,
            SessionType::LinktestRequest => 5,
            SessionType::LinktestResponse => 6,
            SessionType::RejectRequest => 7,
            SessionType::SeparateRequest => 9,
        }
    }

    /// The code of the session type.
    pub fn code(self) -> (r: u8)
        ensures
            r == self.spec_code(),
    {
        match self {
            SessionType::DataMessage => 0,
            SessionType::SelectRequest => 1,
            SessionType::SelectResponse => 2,
            SessionType::DeselectRequest => 3,
            SessionType::DeselectResponse => 4,
            SessionType::LinktestRequest => 5,
            SessionType::LinktestResponse => 6,
            SessionType::RejectRequest => 7,
            SessionType::SeparateRequest => 9,
        }
    }
}

/// A data message: a SECS-II message in a session.
#[derive(Debug)]
pub struct DataMessage {
    pub session_id: u16,
    /// Whether a reply is requested.
    pub w: bool,
    pub stream: u8,
    pub function: u8,
    pub system: u32,
    /// The SECS-II message text.
    pub text: Vec<u8>,
}

/// The mathematical value of a [DataMessage].
pub struct DataMessageV {
    pub session_id: u16,
    pub w: bool,
    pub stream: u8,
    pub function: u8,
    pub system: u32,
    pub text: Seq<u8>,
}

impl View for DataMessage {
    type V = DataMessageV;

    open spec fn view(&self) -> DataMessageV {
        DataMessageV {
            session_id: self.session_id,
            w: self.w,
            stream: self.stream,
            function: self.function,
            system: self.system,
            text: self.text@,
        }
    }
}

/// A request to select a session.
#[derive(Debug, Clone, Copy, PartialEq, Eq, Structural)]
pub struct SelectRequest {
    pub session_id: u16,
    pub system: u32,
}

/// The response to a select request.
#[derive(Debug, Clone, Copy, PartialEq, Eq, Structural)]
pub struct SelectResponse {
    pub session_id: u16,
    /// A [SelectStatus] code.
    pub status: u8,
    pub system: u32,
}

/// The outcome of a select request.
#[derive(Debug, Clone, Copy, PartialEq, Eq, Structural)]
pub enum SelectStatus {
    Success,
    AlreadyActive,
    NotReady,
    Exhausted,
}

impl SelectStatus {
    /// The code of the status.
    pub open spec fn spec_code(self) -> u8 {
        match self {
            SelectStatus::Success => 0,
            SelectStatus::AlreadyActive => 1,
            SelectStatus::NotReady => 2,
            SelectStatus::Exhausted => 3,
        }
    }

    /// The code of the status.
    pub fn code(self) -> (r: u8)
        ensures
            r == self.spec_code(),
    {
        match self {
            SelectStatus::Success => 0,
            SelectStatus::AlreadyActive => 1,
            SelectStatus::NotReady => 2,
            SelectStatus::Exhausted => 3,
        }
    }
}

/// A request to deselect a session.
#[derive(Debug, Clone, Copy, PartialEq, Eq, Structural)]
pub struct DeselectRequest {
    pub session_id: u16,
    pub system: u32,
}

/// The response to a deselect request.
#[derive(Debug, Clone, Copy, PartialEq, Eq, Structural)]
pub struct DeselectResponse {
    /// As in the request.
    pub session_id: u16,
    /// A [DeselectStatus] code.
    pub status: u8,
    /// As in the request.
    pub system: u32,
}

/// The outcome of a deselect request.
#[derive(Debug, Clone, Copy, PartialEq, Eq, Structural)]
pub enum DeselectStatus {
    Success,
    NotEstablished,
    Busy,
}

impl DeselectStatus {
    /// The code of the status.
    pub open spec fn spec_code(self) -> u8 {
        match self {
            DeselectStatus::Success => 0,
            DeselectStatus::NotEstablished => 1,
            DeselectStatus::Busy => 2,
        }
    }

    /// The code of the status.
    pub fn code(self) -> (r: u8)
        ensures
            r == self.spec_code(),
    {
        match self {
            DeselectStatus::Success => 0,
            DeselectStatus::NotEstablished => 1,
            DeselectStatus::Busy => 2,
        }
    }
}

/// A request to test the connection.
#[derive(Debug, Clone, Copy, PartialEq, Eq, Structural)]
pub struct LinktestRequest {
    pub system: u32,
}

/// The response to a linktest request.
#[derive(Debug, Clone, Copy, PartialEq, Eq, Structural)]
pub struct LinktestResponse {
    /// As in the request.
    pub system: u32,
}

/// A rejection of a received message.
#[derive(Debug, Clone, Copy, PartialEq, Eq, Structural)]
pub struct RejectRequest {
    /// As in the rejected message.
    pub session_id: u16,
    /// The presentation or session type of the rejected message.
    pub message_type: u8,
    /// A [RejectReason] code.
    pub reason_code: u8,
    /// As in the rejected message.
    pub system: u32,
}

/// Why a message is rejected.
#[derive(Debug, Clone, Copy, PartialEq, Eq, Structural)]
pub enum RejectReason {
    MalformedData,
    UnsupportedSessionType,
    UnsupportedPresentationType,
    TransactionNotOpen,
    EntityNotSelected,
}

impl RejectReason {
    /// The code of the reason.
    pub open spec fn spec_code(self) -> u8 {
        match self {
            RejectReason::MalformedData => 0,
            RejectReason::UnsupportedSessionType => 1,
            RejectReason::UnsupportedPresentationType => 2,
            RejectReason::TransactionNotOpen => 3,
            RejectReason::EntityNotSelected => 4,
        }
    }

    /// The code of the reason.
    pub fn code(self) -> (r: u8)
        ensures
            r == self.spec_code(),
    {
        match self {
            RejectReason::MalformedData => 0,
            RejectReason::UnsupportedSessionType => 1,
            RejectReason::UnsupportedPresentationType => 2,
            RejectReason::TransactionNotOpen => 3,
            RejectReason::EntityNotSelected => 4,
        }
    }
}

/// A request to end a session at once.
#[derive(Debug, Clone, Copy, PartialEq, Eq, Structural)]
pub struct SeparateRequest {
    pub session_id: u16,
    pub system: u32,
}

/// An HSMS message of any kind.
#[derive(Debug)]
pub enum HsmsMessage {
    DataMessage(DataMessage),
    SelectRequest(SelectRequest),
    SelectResponse(SelectResponse),
    DeselectRequest(DeselectRequest),
    DeselectResponse(DeselectResponse),
    LinktestRequest(LinktestRequest),
    LinktestResponse(LinktestResponse),
    RejectRequest(RejectRequest),
    SeparateRequest(SeparateRequest),
}

/// The mathematical value of an [HsmsMessage].
pub enum HsmsMessageV {
    DataMessage(DataMessageV),
    SelectRequest(SelectRequest),
    SelectResponse(SelectResponse),
    DeselectRequest(DeselectRequest),
    DeselectResponse(DeselectResponse),
    LinktestRequest(LinktestRequest),
    LinktestResponse(LinktestResponse),
    RejectRequest(RejectRequest),
    SeparateRequest(SeparateRequest),
}

impl View for HsmsMessage {
    type V = HsmsMessageV;

    open spec fn view(&self) -> HsmsMessageV {
        match self {
            HsmsMessage::DataMessage(m) => HsmsMessageV::DataMessage(m@),
            HsmsMessage::SelectRequest(m) => HsmsMessageV::SelectRequest(*m),
            HsmsMessage::SelectResponse(m) => HsmsMessageV::SelectResponse(*m),
            HsmsMessage::DeselectRequest(m) => HsmsMessageV::DeselectRequest(*m),
            HsmsMessage::DeselectResponse(m) => HsmsMessageV::DeselectResponse(*m),
            HsmsMessage::LinktestRequest(m) => HsmsMessageV::LinktestRequest(*m),
            HsmsMessage::LinktestResponse(m) => HsmsMessageV::LinktestResponse(*m),
            HsmsMessage::RejectRequest(m) => HsmsMessageV::RejectRequest(*m),
            HsmsMessage::SeparateRequest(m) => HsmsMessageV::SeparateRequest(*m),
        }
    }
}

/// Header byte 2 of a data message: the reply bit, then the stream.
pub open spec fn data_byte_2(w: bool, stream: u8) -> u8 {
    (if w { 0x80u8 } else { 0u8 }) | stream
}

/// The reply bit held in header byte 2 of a data message.
pub open spec fn w_of(byte_2: u8) -> bool {
    byte_2 & 0x80u8 > 0
}

/// The stream held in header byte 2 of a data message.
pub open spec fn stream_of(byte_2: u8) -> u8 {
    byte_2 & 0x7fu8
}

/// A message with no text and presentation type 0.
pub open spec fn control_message(
    session_id: u16,
    byte_2: u8,
    byte_3: u8,
    session_type: u8,
    system: u32,
) -> MessageV {
    MessageV {
        header: MessageHeader {
            session_id,
            byte_2,
            byte_3,
            presentation_type: 0,
            session_type,
            system,
        },
        text: Seq::empty(),
    }
}

/// The message that an HSMS message is sent as.
pub open spec fn message_of(h: HsmsMessageV) -> MessageV {
    match h {
        HsmsMessageV::DataMessage(d) => MessageV {
            header: MessageHeader {
                session_id: d.session_id,
                byte_2: data_byte_2(d.w, d.stream),
                byte_3: d.function,
                presentation_type: 0,
                session_type: 0,
                system: d.system,
            },
            text: d.text,
        },
        HsmsMessageV::SelectRequest(r) => control_message(r.session_id, 0, 0, 1, r.system),
        HsmsMessageV::SelectResponse(r) => control_message(r.session_id, 0, r.status, 2, r.system),
        HsmsMessageV::DeselectRequest(r) => control_message(r.session_id, 0, 0, 3, r.system),
        HsmsMessageV::DeselectResponse(r) => control_message(r.session_id, 0, r.status, 4, r.system),
        HsmsMessageV::LinktestRequest(r) => control_message(0xFFFF, 0, 0, 5, r.system),
        HsmsMessageV::LinktestResponse(r) => control_message(0xFFFF, 0, 0, 6, r.system),
        HsmsMessageV::RejectRequest(r) => control_message(
            r.session_id,
            r.message_type,
            r.reason_code,
            7,
            r.system,
        ),
        HsmsMessageV::SeparateRequest(r) => control_message(r.session_id, 0, 0, 9, r.system),
    }
}

/// The HSMS message that a received message is, or why it is rejected:
/// presentation type other than 0, session type unknown, or header bytes or
/// text that the session type does not allow.
pub open spec fn hsms_of(m: MessageV) -> Result<HsmsMessageV, RejectReason> {
    let h = m.header;
    let st = h.session_type;
    let empty = m.text.len() == 0;
    if h.presentation_type != 0 {
        Err(RejectReason::UnsupportedPresentationType)
    } else if st == 0 {
        Ok(
            HsmsMessageV::DataMessage(
                DataMessageV {
                    session_id: h.session_id,
                    w: w_of(h.byte_2),
                    stream: stream_of(h.byte_2),
                    function: h.byte_3,
                    system: h.system,
                    text: m.text,
                },
            ),
        )
    } else if st == 1 {
        if h.byte_2 != 0 || h.byte_3 != 0 || !empty {
            Err(RejectReason::MalformedData)
        } else {
            Ok(HsmsMessageV::SelectRequest(SelectRequest { session_id: h.session_id, system: h.system }))
        }
    } else if st == 2 {
        if h.byte_2 != 0 || !empty {
            Err(RejectReason::MalformedData)
        } else {
            Ok(
                HsmsMessageV::SelectResponse(
                    SelectResponse { session_id: h.session_id, status: h.byte_3, system: h.system },
                ),
            )
        }
    } else if st == 3 {
        if h.byte_2 != 0 || h.byte_3 != 0 || !empty {
            Err(RejectReason::MalformedData)
        } else {
            Ok(
                HsmsMessageV::DeselectRequest(
                    DeselectRequest { session_id: h.session_id, system: h.system },
                ),
            )
        }
    } else if st == 4 {
        if h.byte_2 != 0 || !empty {
            Err(RejectReason::MalformedData)
        } else {
            Ok(
                HsmsMessageV::DeselectResponse(
                    DeselectResponse { session_id: h.session_id, status: h.byte_3, system: h.system },
                ),
            )
        }
    } else if st == 5 {
        if h.session_id != 0xFFFF || h.byte_2 != 0 || h.byte_3 != 0 || !empty {
            Err(RejectReason::MalformedData)
        } else {
            Ok(HsmsMessageV::LinktestRequest(LinktestRequest { system: h.system }))
        }
    } else if st == 6 {
        if h.session_id != 0xFFFF || h.byte_2 != 0 || h.byte_3 != 0 || !empty {
            Err(RejectReason::MalformedData)
        } else {
            Ok(HsmsMessageV::LinktestResponse(LinktestResponse { system: h.system }))
        }
    } else if st == 7 {
        if !empty {
            Err(RejectReason::MalformedData)
        } else {
            Ok(
                HsmsMessageV::RejectRequest(
                    RejectRequest {
                        session_id: h.session_id,
                        message_type: h.byte_2,
                        reason_code: h.byte_3,
                        system: h.system,
                    },
                ),
            )
        }
    } else if st == 9 {
        if h.byte_2 != 0 || h.byte_3 != 0 || !empty {
            Err(RejectReason::MalformedData)
        } else {
            Ok(
                HsmsMessageV::SeparateRequest(
                    SeparateRequest { session_id: h.session_id, system: h.system },
                ),
            )
        }
    } else {
        Err(RejectReason::UnsupportedSessionType)
    }
}

/// The HSMS messages that are sent as themselves: a data message's stream
/// must leave the reply bit free.
pub open spec fn wf_hsms(h: HsmsMessageV) -> bool {
    match h {
        HsmsMessageV::DataMessage(d) => d.stream < 128,
        _ => true,
    }
}

/// The reply bit and the stream are read back from header byte 2.
pub proof fn lemma_byte_2(w: bool, stream: u8)
    requires
        stream < 128,
    ensures
        w_of(data_byte_2(w, stream)) == w,
        stream_of(data_byte_2(w, stream)) == stream,
{
    if w {
        assert((0x80u8 | stream) & 0x80u8 > 0) by (bit_vector);
        assert(stream < 128 ==> (0x80u8 | stream) & 0x7fu8 == stream) by (bit_vector);
    } else {
        assert(!((0u8 | stream) & 0x80u8 > 0)) by (bit_vector)
            requires
                stream < 128,
        ;
        assert((0u8 | stream) & 0x7fu8 == stream) by (bit_vector)
            requires
                stream < 128,
        ;
    }
}

/// Header byte 2 is rebuilt from its reply bit and stream.
pub proof fn lemma_byte_2_back(b: u8)
    ensures
        stream_of(b) < 128,
        data_byte_2(w_of(b), stream_of(b)) == b,
{
    assert(b & 0x7fu8 < 128) by (bit_vector);
    if b & 0x80u8 > 0 {
        assert(b & 0x80u8 > 0 ==> (0x80u8 | (b & 0x7fu8)) == b) by (bit_vector);
    } else {
        assert(!(b & 0x80u8 > 0) ==> (0u8 | (b & 0x7fu8)) == b) by (bit_vector);
    }
}

/// Receiving what an HSMS message is sent as gives the HSMS message back.
pub proof fn lemma_hsms_roundtrip(h: HsmsMessageV)
    requires
        wf_hsms(h),
    ensures
        hsms_of(message_of(h)) == Ok::<HsmsMessageV, RejectReason>(h),
{
    match h {
        HsmsMessageV::DataMessage(d) => {
            lemma_byte_2(d.w, d.stream);
        },
        _ => {},
    }
}

/// A received message that is accepted is exactly what its HSMS message is
/// sent as.
pub proof fn lemma_message_hsms(m: MessageV)
    ensures
        hsms_of(m) matches Ok(h) ==> wf_hsms(h) && message_of(h) == m,
{
    if hsms_of(m) is Ok {
        lemma_byte_2_back(m.header.byte_2);
        assert(m.text.len() == 0 ==> m.text =~= Seq::<u8>::empty());
    }
}

/// A message with no text and presentation type 0.
fn control(session_id: u16, byte_2: u8, byte_3: u8, session_type: u8, system: u32) -> (r: Message)
    ensures
        r@ == control_message(session_id, byte_2, byte_3, session_type, system),
{
    let text: Vec<u8> = Vec::new();
    Message {
        header: MessageHeader {
            session_id,
            byte_2,
            byte_3,
            presentation_type: 0,
            session_type,
            system,
        },
        text,
    }
}

impl HsmsMessage {
    /// The message that this HSMS message is sent as.
    pub fn into_message(self) -> (r: Message)
        ensures
            r@ == message_of(self@),
    {
        match self {
            HsmsMessage::DataMessage(d) => {
                let flag: u8 = if d.w { 0x80 } else { 0 };
                Message {
                    header: MessageHeader {
                        session_id: d.session_id,
                        byte_2: flag | d.stream,
                        byte_3: d.function,
                        presentation_type: PresentationType::SecsII.code(),
                        session_type: SessionType::DataMessage.code(),
                        system: d.system,
                    },
                    text: d.text,
                }
            },
            HsmsMessage::SelectRequest(r) => control(
                r.session_id,
                0,
                0,
                SessionType::SelectRequest.code(),
                r.system,
            ),
            HsmsMessage::SelectResponse(r) => control(
                r.session_id,
                0,
                r.status,
                SessionType::SelectResponse.code(),
                r.system,
            ),
            HsmsMessage::DeselectRequest(r) => control(
                r.session_id,
                0,
                0,
                SessionType::DeselectRequest.code(),
                r.system,
            ),
            HsmsMessage::DeselectResponse(r) => control(
                r.session_id,
                0,
                r.status,
                SessionType::DeselectResponse.code(),
                r.system,
            ),
            HsmsMessage::LinktestRequest(r) => control(
                0xFFFF,
                0,
                0,
                SessionType::LinktestRequest.code(),
                r.system,
            ),
            HsmsMessage::LinktestResponse(r) => control(
                0xFFFF,
                0,
                0,
                SessionType::LinktestResponse.code(),
                r.system,
            ),
            HsmsMessage::RejectRequest(r) => control(
                r.session_id,
                r.message_type,
                r.reason_code,
                SessionType::RejectRequest.code(),
                r.system,
            ),
            HsmsMessage::SeparateRequest(r) => control(
                r.session_id,
                0,
                0,
                SessionType::SeparateRequest.code(),
                r.system,
            ),
        }
    }

    /// The HSMS message that a received message is, or why it is rejected.
    pub fn try_from_message(message: Message) -> (r: Result<HsmsMessage, RejectReason>)
        ensures
            match r {
                Ok(h) => hsms_of(message@) == Ok::<HsmsMessageV, RejectReason>(h@),
                Err(e) => hsms_of(message@) == Err::<HsmsMessageV, RejectReason>(e),
            },
    {
        let h = message.header;
        let empty = message.text.len() == 0;
        if h.presentation_type != 0 {
            return Err(RejectReason::UnsupportedPresentationType);
        }
        match h.session_type {
            0 => Ok(
                HsmsMessage::DataMessage(
                    DataMessage {
                        session_id: h.session_id,
                        w: h.byte_2 & 0x80 > 0,
                        stream: h.byte_2 & 0x7f,
                        function: h.byte_3,
                        system: h.system,
                        text: message.text,
                    },
                ),
            ),
            1 => if h.byte_2 != 0 || h.byte_3 != 0 || !empty {
                Err(RejectReason::MalformedData)
            } else {
                Ok(
                    HsmsMessage::SelectRequest(
                        SelectRequest { session_id: h.session_id, system: h.system },
                    ),
                )
            },
            2 => if h.byte_2 != 0 || !empty {
                Err(RejectReason::MalformedData)
            } else {
                Ok(
                    HsmsMessage::SelectResponse(
                        SelectResponse {
                            session_id: h.session_id,
                            status: h.byte_3,
                            system: h.system,
                        },
                    ),
                )
            },
            3 => if h.byte_2 != 0 || h.byte_3 != 0 || !empty {
                Err(RejectReason::MalformedData)
            } else {
                Ok(
                    HsmsMessage::DeselectRequest(
                        DeselectRequest { session_id: h.session_id, system: h.system },
                    ),
                )
            },
            4 => if h.byte_2 != 0 || !empty {
                Err(RejectReason::MalformedData)
            } else {
                Ok(
                    HsmsMessage::DeselectResponse(
                        DeselectResponse {
                            session_id: h.session_id,
                            status: h.byte_3,
                            system: h.system,
                        },
                    ),
                )
            },
            5 => if h.session_id != 0xFFFF || h.byte_2 != 0 || h.byte_3 != 0 || !empty {
                Err(RejectReason::MalformedData)
            } else {
                Ok(HsmsMessage::LinktestRequest(LinktestRequest { system: h.system }))
            },
            6 => if h.session_id != 0xFFFF || h.byte_2 != 0 || h.byte_3 != 0 || !empty {
                Err(RejectReason::MalformedData)
            } else {
                Ok(HsmsMessage::LinktestResponse(LinktestResponse { system: h.system }))
            },
            7 => if !empty {
                Err(RejectReason::MalformedData)
            } else {
                Ok(
                    HsmsMessage::RejectRequest(
                        RejectRequest {
                            session_id: h.session_id,
                            message_type: h.byte_2,
                            reason_code: h.byte_3,
                            system: h.system,
                        },
                    ),
                )
            },
            9 => if h.byte_2 != 0 || h.byte_3 != 0 || !empty {
                Err(RejectReason::MalformedData)
            } else {
                Ok(
                    HsmsMessage::SeparateRequest(
                        SeparateRequest { session_id: h.session_id, system: h.system },
                    ),
                )
            },
            _ => Err(RejectReason::UnsupportedSessionType),
        }
    }

    /// The kind of the message.
    pub fn session_type(&self) -> (r: SessionType)
        ensures
            r == match self@ {
                HsmsMessageV::DataMessage(_) => SessionType::DataMessage,
                HsmsMessageV::SelectRequest(_) => SessionType::SelectRequest,
                HsmsMessageV::SelectResponse(_) => SessionType::SelectResponse,
                HsmsMessageV::DeselectRequest(_) => SessionType::DeselectRequest,
                HsmsMessageV::DeselectResponse(_) => SessionType::DeselectResponse,
                HsmsMessageV::LinktestRequest(_) => SessionType::LinktestRequest,
                HsmsMessageV::LinktestResponse(_) => SessionType::LinktestResponse,
                HsmsMessageV::RejectRequest(_) => SessionType::RejectRequest,
                HsmsMessageV::SeparateRequest(_) => SessionType::SeparateRequest,
            },
            r.spec_code() == message_of(self@).header.session_type,
    {
        match self {
            HsmsMessage::DataMessage(_) => SessionType::DataMessage,
            HsmsMessage::SelectRequest(_) => SessionType::SelectRequest,
            HsmsMessage::SelectResponse(_) => SessionType::SelectResponse,
            HsmsMessage::DeselectRequest(_) => SessionType::DeselectRequest,
            HsmsMessage::DeselectResponse(_) => SessionType::DeselectResponse,
            HsmsMessage::LinktestRequest(_) => SessionType::LinktestRequest,
            HsmsMessage::LinktestResponse(_) => SessionType::LinktestResponse,
            HsmsMessage::RejectRequest(_) => SessionType::RejectRequest,
            HsmsMessage::SeparateRequest(_) => SessionType::SeparateRequest,
        }
    }

    /// The system bytes of the message.
    pub fn system_bytes(&self) -> (r: u32)
        ensures
            r == message_of(self@).header.system,
    {
        match self {
            HsmsMessage::DataMessage(m) => m.system,
            HsmsMessage::SelectRequest(m) => m.system,
            HsmsMessage::SelectResponse(m) => m.system,
            HsmsMessage::DeselectRequest(m) => m.system,
            HsmsMessage::DeselectResponse(m) => m.system,
            HsmsMessage::LinktestRequest(m) => m.system,
            HsmsMessage::LinktestResponse(m) => m.system,
            HsmsMessage::RejectRequest(m) => m.system,
            HsmsMessage::SeparateRequest(m) => m.system,
        }
    }
}

/// The bytes that send a message: its length, then the message.
pub open spec fn wire_bytes(m: MessageV) -> Seq<u8> {
    length_seq(message_bytes(m).len()) + message_bytes(m)
}

/// The bytes that send a message: its length, then the message.
pub fn frame(message: &Message) -> (r: Vec<u8>)
    ensures
        r@ == wire_bytes(message@),
{
    let body = message.to_bytes();
    let len = length_bytes(body.len());
    let mut out: Vec<u8> = Vec::new();
    let mut i: usize = 0;
    while i < 4
        invariant
            i <= 4,
            len@.len() == 4,
            out@ =~= len@.take(i as int),
        decreases 4 - i,
    {
        out.push(len[i]);
        i = i + 1;
    }
    let mut j: usize = 0;
    while j < body.len()
        invariant
            j <= body.len(),
            len@.len() == 4,
            out@ =~= len@ + body@.take(j as int),
        decreases body.len() - j,
    {
        out.push(body[j]);
        j = j + 1;
    }
    assert(out@ =~= wire_bytes(message@));
    out
}

/// Reading back what [frame] sends: the 4 length bytes give the number of
/// bytes that follow, at least the 10 of a header, and those bytes hold the
/// message.
pub proof fn lemma_frame_read(m: MessageV)
    requires
        10 + m.text.len() < 0x1_0000_0000,
    ensures
        ({
            let w = wire_bytes(m);
            &&& u32_of(w[0], w[1], w[2], w[3]) == 10 + m.text.len()
            &&& message_of_bytes(w.skip(4)) == Some(m)
        }),
{
    let h = m.header.spec_bytes();
    assert(wire_bytes(m) =~= wire_seq(h, m.text));
    lemma_wire_read(h, m.text);
    lemma_message_roundtrip(m);
}

/// The rejection that answers a received message with this header.
pub open spec fn rejection_of(header: MessageHeader, reason: RejectReason) -> RejectRequest {
    RejectRequest {
        session_id: header.session_id,
        message_type: header.session_type,
        reason_code: reason.spec_code(),
        system: header.system,
    }
}

/// What the primitive client does with a received message: passes on the
/// HSMS message it is, or answers it with a rejection that carries its
/// session type and the reason.
pub fn screen(message: Message) -> (r: Result<HsmsMessage, HsmsMessage>)
    ensures
        match hsms_of(message@) {
            Ok(h) => r matches Ok(x) && x@ == h,
            Err(reason) => r matches Err(x) && x@ == HsmsMessageV::RejectRequest(
                rejection_of(message.header, reason),
            ),
        },
{
    let header = message.header;
    match HsmsMessage::try_from_message(message) {
        Ok(h) => Ok(h),
        Err(reason) => Err(
            HsmsMessage::RejectRequest(
                RejectRequest {
                    session_id: header.session_id,
                    message_type: header.session_type,
                    reason_code: reason.code(),
                    system: header.system,
                },
            ),
        ),
    }
}

/// An open transaction: the key it is kept under, and the system bytes and
/// session type of the message that opened it.
#[derive(Debug, Clone, Copy, PartialEq, Eq, Structural)]
pub struct Transaction {
    pub key: u32,
    pub system: u32,
    pub session_type: SessionType,
}

/// The key of the first open transaction with these system bytes and session
/// type, if any.
pub open spec fn transaction_key(outbox: Seq<Transaction>, system: u32, st: SessionType) -> Option<u32>
    decreases outbox.len(),
{
    if outbox.len() == 0 {
        None
    } else if outbox[0].system == system && outbox[0].session_type == st {
        Some(outbox[0].key)
    } else {
        transaction_key(outbox.drop_first(), system, st)
    }
}

/// The key of the first open transaction with these system bytes and session
/// type, if any.
pub fn find_transaction(outbox: &Vec<Transaction>, system: u32, st: SessionType) -> (r: Option<u32>)
    ensures
        r == transaction_key(outbox@, system, st),
{
    let mut i: usize = 0;
    assert(outbox@.skip(0) =~= outbox@);
    while i < outbox.len()
        invariant
            i <= outbox.len(),
            transaction_key(outbox@, system, st) == transaction_key(outbox@.skip(i as int), system, st),
        decreases outbox.len() - i,
    {
        if outbox[i].system == system && outbox[i].session_type == st {
            assert(outbox@.skip(i as int)[0] == outbox@[i as int]);
            return Some(outbox[i].key);
        }
        assert(outbox@.skip(i as int).drop_first() =~= outbox@.skip(i + 1));
        i = i + 1;
    }
    assert(outbox@.skip(i as int).len() == 0);
    None
}

/// The key found for a reply is that of an open transaction with its system
/// bytes and kind, and none is found exactly when no open transaction has
/// them.
pub proof fn lemma_transaction_key(outbox: Seq<Transaction>, system: u32, st: SessionType)
    ensures
        match transaction_key(outbox, system, st) {
            Some(k) => exists|i: int|
                0 <= i < outbox.len() && #[trigger] outbox[i].key == k && outbox[i].system == system
                    && outbox[i].session_type == st,
            None => forall|i: int|
                0 <= i < outbox.len() ==> !(#[trigger] outbox[i].system == system && outbox[i].session_type == st),
        },
    decreases outbox.len(),
{
    if outbox.len() > 0 {
        let rest = outbox.drop_first();
        lemma_transaction_key(rest, system, st);
        if !(outbox[0].system == system && outbox[0].session_type == st) {
            match transaction_key(rest, system, st) {
                Some(k) => {
                    let j = choose|j: int|
                        0 <= j < rest.len() && #[trigger] rest[j].key == k && rest[j].system == system
                            && rest[j].session_type == st;
                    assert(outbox[j + 1] == rest[j]);
                },
                None => {
                    assert forall|i: int| 0 <= i < outbox.len() implies !(#[trigger] outbox[i].system == system
                        && outbox[i].session_type == st) by {
                        if i > 0 {
                            assert(outbox[i] == rest[i - 1]);
                        }
                    }
                },
            }
        }
    }
}

/// What the generic client does with a received message.
#[derive(Debug)]
pub enum GenericAction {
    /// Hand the primary data message to the application.
    Deliver(DataMessage),
    /// Complete the open transaction with this key with the reply.
    Complete(u32, HsmsMessage),
    /// Send the message.
    Send(HsmsMessage),
    /// Nothing to do.
    Ignore,
}

/// The mathematical value of a [GenericAction].
pub enum GenericActionV {
    Deliver(DataMessageV),
    Complete(u32, HsmsMessageV),
    Send(HsmsMessageV),
    Ignore,
}

impl View for GenericAction {
    type V = GenericActionV;

    open spec fn view(&self) -> GenericActionV {
        match self {
            GenericAction::Deliver(m) => GenericActionV::Deliver(m@),
            GenericAction::Complete(k, m) => GenericActionV::Complete(*k, m@),
            GenericAction::Send(m) => GenericActionV::Send(m@),
            GenericAction::Ignore => GenericActionV::Ignore,
        }
    }
}

/// The received messages the generic client does not handle: select
/// responses, deselect requests and responses, and rejections.
pub open spec fn unhandled(h: HsmsMessageV) -> bool {
    h is SelectResponse || h is DeselectRequest || h is DeselectResponse || h is RejectRequest
}

/// A rejection with message type 0.
pub open spec fn reject_of(session_id: u16, reason: RejectReason, system: u32) -> HsmsMessageV {
    HsmsMessageV::RejectRequest(
        RejectRequest { session_id, message_type: 0, reason_code: reason.spec_code(), system },
    )
}

/// What the generic client does with a received HSMS message, given its
/// selection state and open transactions: the new selection state and the
/// action.
pub open spec fn receive_spec(state: SelectionState, outbox: Seq<Transaction>, h: HsmsMessageV) -> (
    SelectionState,
    GenericActionV,
) {
    match h {
        HsmsMessageV::DataMessage(d) => if state is Selected {
            if d.function % 2 == 1 {
                (state, GenericActionV::Deliver(d))
            } else {
                match transaction_key(outbox, d.system, SessionType::DataMessage) {
                    Some(k) => (state, GenericActionV::Complete(k, h)),
                    None => (
                        state,
                        GenericActionV::Send(
                            reject_of(d.session_id, RejectReason::TransactionNotOpen, d.system),
                        ),
                    ),
                }
            }
        } else {
            (
                state,
                GenericActionV::Send(reject_of(d.session_id, RejectReason::EntityNotSelected, d.system)),
            )
        },
        HsmsMessageV::SelectRequest(r) => if state is Selected {
            (
                state,
                GenericActionV::Send(
                    HsmsMessageV::SelectResponse(
                        SelectResponse {
                            session_id: r.session_id,
                            status: SelectStatus::AlreadyActive.spec_code(),
                            system: r.system,
                        },
                    ),
                ),
            )
        } else {
            (
                SelectionState::Selected(r.session_id),
                GenericActionV::Send(
                    HsmsMessageV::SelectResponse(
                        SelectResponse {
                            session_id: r.session_id,
                            status: SelectStatus::Success.spec_code(),
                            system: r.system,
                        },
                    ),
                ),
            )
        },
        HsmsMessageV::LinktestRequest(r) => (
            state,
            GenericActionV::Send(HsmsMessageV::LinktestResponse(LinktestResponse { system: r.system })),
        ),
        HsmsMessageV::LinktestResponse(r) => match transaction_key(
            outbox,
            r.system,
            SessionType::LinktestRequest,
        ) {
            Some(k) => (state, GenericActionV::Complete(k, h)),
            None => (
                state,
                GenericActionV::Send(reject_of(0xFFFF, RejectReason::TransactionNotOpen, r.system)),
            ),
        },
        HsmsMessageV::SeparateRequest(r) => if state == SelectionState::Selected(r.session_id) {
            (SelectionState::NotSelected, GenericActionV::Ignore)
        } else {
            (state, GenericActionV::Ignore)
        },
        _ => (state, GenericActionV::Ignore),
    }
}

/// A rejection with message type 0.
fn reject(session_id: u16, reason: RejectReason, system: u32) -> (r: HsmsMessage)
    ensures
        r@ == reject_of(session_id, reason, system),
{
    HsmsMessage::RejectRequest(
        RejectRequest { session_id, message_type: 0, reason_code: reason.code(), system },
    )
}

/// What the generic client does with a received HSMS message: the new
/// selection state and the action.
///
/// A primary data message is delivered when selected; a reply completes the
/// first open transaction with its system bytes and kind, or is rejected; a
/// select request is answered, selecting the session if none is; a separate
/// request for the selected session deselects it.
pub fn receive_step(state: SelectionState, outbox: &Vec<Transaction>, h: HsmsMessage) -> (r: (
    SelectionState,
    GenericAction,
))
    requires
        !unhandled(h@),
    ensures
        (r.0, r.1@) == receive_spec(state, outbox@, h@),
{
    match h {
        HsmsMessage::DataMessage(d) => match state {
            SelectionState::Selected(_) => if d.function % 2 == 1 {
                (state, GenericAction::Deliver(d))
            } else {
                match find_transaction(outbox, d.system, SessionType::DataMessage) {
                    Some(k) => (state, GenericAction::Complete(k, HsmsMessage::DataMessage(d))),
                    None => {
                        let m = reject(d.session_id, RejectReason::TransactionNotOpen, d.system);
                        (state, GenericAction::Send(m))
                    },
                }
            },
            SelectionState::NotSelected => {
                let m = reject(d.session_id, RejectReason::EntityNotSelected, d.system);
                (state, GenericAction::Send(m))
            },
        },
        HsmsMessage::SelectRequest(r) => match state {
            SelectionState::Selected(_) => (
                state,
                GenericAction::Send(
                    HsmsMessage::SelectResponse(
                        SelectResponse {
                            session_id: r.session_id,
                            status: SelectStatus::AlreadyActive.code(),
                            system: r.system,
                        },
                    ),
                ),
            ),
            SelectionState::NotSelected => (
                SelectionState::Selected(r.session_id),
                GenericAction::Send(
                    HsmsMessage::SelectResponse(
                        SelectResponse {
                            session_id: r.session_id,
                            status: SelectStatus::Success.code(),
                            system: r.system,
                        },
                    ),
                ),
            ),
        },
        HsmsMessage::LinktestRequest(r) => (
            state,
            GenericAction::Send(HsmsMessage::LinktestResponse(LinktestResponse { system: r.system })),
        ),
        HsmsMessage::LinktestResponse(r) => match find_transaction(
            outbox,
            r.system,
            SessionType::LinktestRequest,
        ) {
            Some(k) => (state, GenericAction::Complete(k, HsmsMessage::LinktestResponse(r))),
            None => (
                state,
                GenericAction::Send(reject(0xFFFF, RejectReason::TransactionNotOpen, r.system)),
            ),
        },
        HsmsMessage::SeparateRequest(r) => match state {
            SelectionState::Selected(sid) => if sid == r.session_id {
                (SelectionState::NotSelected, GenericAction::Ignore)
            } else {
                (state, GenericAction::Ignore)
            },
            SelectionState::NotSelected => (state, GenericAction::Ignore),
        },
        _ => (state, GenericAction::Ignore),
    }
}

/// Whether a reply is expected to a data message: it is primary (odd
/// function) and requests one.
pub fn reply_expected(message: &DataMessage) -> (r: bool)
    ensures
        r == (message.function % 2 == 1 && message.w),
{
    message.function % 2 == 1 && message.w
}

/// The outcome of the data procedure, given whether a reply was expected and
/// the reply, if one came: whether to disconnect, and the result. Any reply
/// is returned; a missing expected reply drops the connection.
pub fn data_outcome(reply_expected: bool, reply: Option<HsmsMessage>) -> (r: (
    bool,
    Result<Option<HsmsMessage>, ConnectionStateTransition>,
))
    ensures
        match reply {
            Some(m) => !r.0 && (r.1 matches Ok(Some(x)) && x@ == m@),
            None => if reply_expected {
                r.0 && (r.1 matches Err(t) && t == ConnectionStateTransition::ConnectedToNotConnected)
            } else {
                !r.0 && (r.1 matches Ok(x) && x is None)
            },
        },
{
    match reply {
        Some(m) => (false, Ok(Some(m))),
        None => if reply_expected {
            (true, Err(ConnectionStateTransition::ConnectedToNotConnected))
        } else {
            (false, Ok(None))
        },
    }
}

/// The outcome of the linktest procedure, given the reply if one came:
/// whether to disconnect, and the result.
pub fn linktest_outcome(reply: Option<HsmsMessage>) -> (r: (bool, Result<(), ConnectionStateTransition>))
    ensures
        match reply {
            Some(m) => if m@ is LinktestResponse {
                !r.0 && r.1 is Ok
            } else {
                !r.0 && (r.1 matches Err(t) && t == ConnectionStateTransition::NoTransition)
            },
            None => r.0 && (r.1 matches Err(t) && t == ConnectionStateTransition::ConnectedToNotConnected),
        },
{
    match reply {
        Some(HsmsMessage::LinktestResponse(_)) => (false, Ok(())),
        Some(_) => (false, Err(ConnectionStateTransition::NoTransition)),
        None => (true, Err(ConnectionStateTransition::ConnectedToNotConnected)),
    }
}

/// The parameter settings of a client (SEMI E37 section 10.2): connection
/// mode and timeouts.
#[derive(Debug, Clone, Copy)]
pub struct ParameterSettings {
    pub connect_mode: ConnectionMode,
    /// Reply timeout.
    pub t3: std::time::Duration,
    /// Connection separation timeout.
    pub t5: std::time::Duration,
    /// Control transaction timeout.
    pub t6: std::time::Duration,
    /// Not-selected timeout.
    pub t7: std::time::Duration,
    /// Network intercharacter timeout.
    pub t8: std::time::Duration,
}

impl Default for ParameterSettings {
    /// The default settings: passive mode, and T3 45 s, T5 10 s, T6 5 s,
    /// T7 10 s, T8 5 s.
    fn default() -> (r: Self)
        ensures
            r.connect_mode == ConnectionMode::Passive,
            r.t3 == duration_from_secs(45),
            r.t5 == duration_from_secs(10),
            r.t6 == duration_from_secs(5),
            r.t7 == duration_from_secs(10),
            r.t8 == duration_from_secs(5),
    {
        ParameterSettings {
            connect_mode: ConnectionMode::default(),
            t3: seconds(45),
            t5: seconds(10),
            t6: seconds(5),
            t7: seconds(10),
            t8: seconds(5),
        }
    }
}

/// The codes of session types, select and deselect statuses and reject
/// reasons (SEMI E37 section 8).
pub proof fn lemma_codes()
    ensures
        SessionType::DataMessage.spec_code() == 0,
        SessionType::SelectRequest.spec_code() == 1,
        SessionType::SelectResponse.spec_code() == 2,
        SessionType::DeselectRequest.spec_code() == 3,
        SessionType::DeselectResponse.spec_code() == 4,
        SessionType::LinktestRequest.spec_code() == 5,
        SessionType::LinktestResponse.spec_code() == 6,
        SessionType::RejectRequest.spec_code() == 7,
        SessionType::SeparateRequest.spec_code() == 9,
        SelectStatus::Success.spec_code() == 0,
        SelectStatus::AlreadyActive.spec_code() == 1,
        SelectStatus::NotReady.spec_code() == 2,
        SelectStatus::Exhausted.spec_code() == 3,
        DeselectStatus::Success.spec_code() == 0,
        DeselectStatus::NotEstablished.spec_code() == 1,
        DeselectStatus::Busy.spec_code() == 2,
        RejectReason::MalformedData.spec_code() == 0,
        RejectReason::UnsupportedSessionType.spec_code() == 1,
        RejectReason::UnsupportedPresentationType.spec_code() == 2,
        RejectReason::TransactionNotOpen.spec_code() == 3,
        RejectReason::EntityNotSelected.spec_code() == 4,
{
}

} // verus!
