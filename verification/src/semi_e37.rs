//! HSMS message transfer (SEMI E37), SECS-II data messages carried as
//! items: primitive messages and their bytes, HSMS messages and their
//! conversions, and the decisions of the clients.
use vstd::prelude::*;
use crate::frame::{duration_from_secs, seconds};
use crate::secs_ii::codec::u32_of;
use crate::frame::{lemma_wire_read, wire_seq};
use crate::frame::{
    frame_bytes,
    header_bytes, header_seq, lemma_header_bytes, lemma_header_fields, read_session_id,
    read_system, session_id_of, system_of,
};
use crate::hsms::{data_byte_2, lemma_byte_2, lemma_byte_2_back, stream_of, w_of};
use crate::secs_ii::{Message as SecsMessage, MessageV as SecsMessageV};
use crate::secs_ii::codec::wf;
use crate::data_text::{body_of, lemma_body_roundtrip, lemma_body_wf, text_bytes, text_body, text_of};

pub mod laws;
pub mod primitive;
pub mod generic;
pub mod single;

verus! {
/// The header of a message (SEMI E37 section 8.2).
#[derive(Debug, Clone, Copy, PartialEq, Eq, Structural)]
pub struct PrimitiveMessageHeader {
    pub session_id: u16,
    pub byte_2: u8,
    pub byte_3: u8,
    pub presentation_type: u8,
    pub session_type: u8,
    pub system: u32,
}

impl PrimitiveMessageHeader {
    /// The 10 bytes of the header.
    pub open spec fn spec_bytes(self) -> Seq<u8> {
        header_seq(
            self.session_id,
            self.byte_2,
            self.byte_3,
            self.presentation_type,
            self.session_type,
            self.system,
        )
    }

    /// The header that 10 bytes hold.
    pub open spec fn spec_from_bytes(b: Seq<u8>) -> PrimitiveMessageHeader {
        PrimitiveMessageHeader {
            session_id: session_id_of(b),
            byte_2: b[2],
            byte_3: b[3],
            presentation_type: b[4],
            session_type: b[5],
            system: system_of(b),
        }
    }

    /// The 10 bytes of the header.
    pub fn to_bytes(self) -> (r: [u8; 10])
        ensures
            r@ == self.spec_bytes(),
    {
        header_bytes(
            self.session_id,
            self.byte_2,
            self.byte_3,
            self.presentation_type,
            self.session_type,
            self.system,
        )
    }

    /// The header that 10 bytes hold.
    pub fn from_bytes(bytes: [u8; 10]) -> (r: Self)
        ensures
            r == Self::spec_from_bytes(bytes@),
    {
        PrimitiveMessageHeader {
            session_id: read_session_id(&bytes),
            byte_2: bytes[2],
            byte_3: bytes[3],
            presentation_type: bytes[4],
            session_type: bytes[5],
            system: read_system(&bytes),
        }
    }
}

impl From<PrimitiveMessageHeader> for [u8; 10] {
    /// The 10 bytes of the header.
    fn from(header: PrimitiveMessageHeader) -> (r: [u8; 10]) {
        header.to_bytes()
    }
}

impl vstd::std_specs::convert::FromSpecImpl<PrimitiveMessageHeader> for [u8; 10] {
    open spec fn obeys_from_spec() -> bool {
        true
    }

    open spec fn from_spec(header: PrimitiveMessageHeader) -> [u8; 10] {
        choose|b: [u8; 10]| b@ == header.spec_bytes()
    }
}

impl From<[u8; 10]> for PrimitiveMessageHeader {
    /// The header that 10 bytes hold.
    fn from(bytes: [u8; 10]) -> (r: PrimitiveMessageHeader) {
        PrimitiveMessageHeader::from_bytes(bytes)
    }
}

impl vstd::std_specs::convert::FromSpecImpl<[u8; 10]> for PrimitiveMessageHeader {
    open spec fn obeys_from_spec() -> bool {
        true
    }

    open spec fn from_spec(bytes: [u8; 10]) -> PrimitiveMessageHeader {
        PrimitiveMessageHeader::spec_from_bytes(bytes@)
    }
}

/// Reading the bytes of a header gives the header back.
pub proof fn lemma_header_roundtrip(h: PrimitiveMessageHeader)
    ensures
        PrimitiveMessageHeader::spec_from_bytes(h.spec_bytes()) == h,
{
    lemma_header_fields(
        h.session_id,
        h.byte_2,
        h.byte_3,
        h.presentation_type,
        h.session_type,
        h.system,
    );
}

/// Writing the header that 10 bytes hold gives the bytes back.
pub proof fn lemma_bytes_roundtrip(b: Seq<u8>)
    requires
        b.len() == 10,
    ensures
        PrimitiveMessageHeader::spec_from_bytes(b).spec_bytes() == b,
{
    lemma_header_bytes(b);
}

/// A message as it is transferred: a header and the message text.
#[derive(Debug)]
pub struct PrimitiveMessage {
    pub header: PrimitiveMessageHeader,
    pub text: Vec<u8>,
}

/// The mathematical value of a [PrimitiveMessage].
pub struct PrimitiveMessageV {
    pub header: PrimitiveMessageHeader,
    pub text: Seq<u8>,
}

impl View for PrimitiveMessage {
    type V = PrimitiveMessageV;

    open spec fn view(&self) -> PrimitiveMessageV {
        PrimitiveMessageV { header: self.header, text: self.text@ }
    }
}

/// The bytes of a message: its header, then its text.
pub open spec fn message_bytes(m: PrimitiveMessageV) -> Seq<u8> {
    m.header.spec_bytes() + m.text
}

/// The message that bytes hold, if there are at least the 10 of a header.
pub open spec fn message_of_bytes(b: Seq<u8>) -> Option<PrimitiveMessageV> {
    if b.len() < 10 {
        None
    } else {
        Some(
            PrimitiveMessageV {
                header: PrimitiveMessageHeader::spec_from_bytes(b.subrange(0, 10)),
                text: b.skip(10),
            },
        )
    }
}

impl PrimitiveMessage {
    /// The bytes of the message: its header, then its text.
    pub fn to_bytes(&self) -> (r: Vec<u8>)
        ensures
            r@ == message_bytes(self@),
    {
        let hb = self.header.to_bytes();
        let mut v: Vec<u8> = Vec::new();
        let mut i: usize = 0;
        while i < 10
            invariant
                i <= 10,
                hb@.len() == 10,
                v@ =~= hb@.take(i as int),
            decreases 10 - i,
        {
            v.push(hb[i]);
            i = i + 1;
        }
        let mut j: usize = 0;
        while j < self.text.len()
            invariant
                j <= self.text.len(),
                hb@.len() == 10,
                v@ =~= hb@ + self.text@.take(j as int),
            decreases self.text.len() - j,
        {
            v.push(self.text[j]);
            j = j + 1;
        }
        assert(v@ =~= message_bytes(self@));
        v
    }

    /// The message that `bytes` hold; fewer than the 10 bytes of a header
    /// give `Err(())`.
    pub fn try_from_bytes(bytes: Vec<u8>) -> (r: Result<PrimitiveMessage, ()>)
        ensures
            match r {
                Ok(m) => message_of_bytes(bytes@) == Some(m@),
                Err(_) => message_of_bytes(bytes@) is None,
            },
    {
        if bytes.len() < 10 {
            return Err(());
        }
        let hb: [u8; 10] = [
            bytes[0],
            bytes[1],
            bytes[2],
            bytes[3],
            bytes[4],
            bytes[5],
            bytes[6],
            bytes[7],
            bytes[8],
            bytes[9],
        ];
        assert(hb@ =~= bytes@.subrange(0, 10));
        let mut text: Vec<u8> = Vec::new();
        let mut j: usize = 10;
        while j < bytes.len()
            invariant
                10 <= j <= bytes.len(),
                text@ =~= bytes@.subrange(10, j as int),
            decreases bytes.len() - j,
        {
            text.push(bytes[j]);
            j = j + 1;
        }
        Ok(PrimitiveMessage { header: PrimitiveMessageHeader::from_bytes(hb), text })
    }
}

/// Reading the bytes of a message gives the message back.
pub proof fn lemma_message_roundtrip(m: PrimitiveMessageV)
    ensures
        message_of_bytes(message_bytes(m)) == Some(m),
{
    let b = message_bytes(m);
    lemma_header_roundtrip(m.header);
    assert(b.subrange(0, 10) =~= m.header.spec_bytes());
    assert(b.skip(10) =~= m.text);
}

/// Writing the message that bytes hold gives the bytes back.
pub proof fn lemma_bytes_message_roundtrip(b: Seq<u8>)
    requires
        b.len() >= 10,
    ensures
        message_of_bytes(b) matches Some(m) && message_bytes(m) == b,
{
    lemma_bytes_roundtrip(b.subrange(0, 10));
    assert(b.subrange(0, 10) + b.skip(10) =~= b);
}

/// How a connection is established: by accepting one (passive) or by
/// initiating one (active).
#[derive(Debug, Clone, Copy, PartialEq, Eq, Structural)]
pub enum ConnectionMode {
    Passive,
    Active,
}

impl Default for ConnectionMode {
    /// The default mode: passive.
    fn default() -> (r: Self)
        ensures
            r == ConnectionMode::Passive,
    {
        ConnectionMode::Passive
    }
}

/// The selection state of a connection.
#[derive(Debug, Clone, Copy, PartialEq, Eq, Structural)]
pub enum SelectionState {
    NotSelected,
    Selected,
}

impl Default for SelectionState {
    /// The initial state: not selected.
    fn default() -> (r: Self)
        ensures
            r == SelectionState::NotSelected,
    {
        SelectionState::NotSelected
    }
}

/// A change of connection or selection state that a procedure made.
#[derive(Debug, Clone, Copy, PartialEq, Eq, Structural)]
pub enum ConnectionStateTransition {
    /// No change of state.
    NoTransition,
    NotConnected,
    NotConnectedToNotSelected,
    ConnectedToNotConnected,
    NotSelectedToSelected,
    SelectedToNotSelected,
    NotSelectedToNotConnected,
}

/// The presentation type of a message.
#[derive(Debug, Clone, Copy, PartialEq, Eq, Structural)]
pub enum PresentationType {
    /// SECS-II encoding, code 0.
    SecsII,
}

impl PresentationType {
    /// The code of the presentation type.
    pub fn code(self) -> (r: u8)
        ensures
            r == 0,
    {
        0
    }
}

/// The session type of a message: the kind of message it is.
#[derive(Debug, Clone, Copy, PartialEq, Eq, Structural)]
pub enum SessionType {
    DataMessage,
    SelectRequest,
    SelectResponse,
    DeselectRequest,
    DeselectResponse,
    LinktestRequest,
    LinktestResponse,
    RejectRequest,
    SeparateRequest,
}

impl SessionType {
    /// The code of the value.
    pub open spec fn spec_code(self) -> u8 {
        match self {
            SessionType::DataMessage => 0,
            SessionType::SelectRequest => 1,
            SessionType::SelectResponse => 2,
            SessionType::DeselectRequest => 3,
            SessionType::DeselectResponse => 4,
            SessionType::LinktestRequest => 5,
            SessionType::LinktestResponse => 6,
            SessionType::RejectRequest => 7,
            SessionType::SeparateRequest => 9,
        }
    }

    /// The code of the value.
    pub fn code(self) -> (r: u8)
        ensures
            r == self.spec_code(),
    {
        match self {
            SessionType::DataMessage => 0,
            SessionType::SelectRequest => 1,
            SessionType::SelectResponse => 2,
            SessionType::DeselectRequest => 3,
            SessionType::DeselectResponse => 4,
            SessionType::LinktestRequest => 5,
            SessionType::LinktestResponse => 6,
            SessionType::RejectRequest => 7,
            SessionType::SeparateRequest => 9,
        }
    }
}

/// The outcome of a select request.
#[derive(Debug, Clone, Copy, PartialEq, Eq, Structural)]
pub enum SelectStatus {
    Success,
    AlreadyActive,
    NotReady,
    Exhausted,
}

impl SelectStatus {
    /// The code of the value.
    pub open spec fn spec_code(self) -> u8 {
        match self {
            SelectStatus::Success => 0,
            SelectStatus::AlreadyActive => 1,
            SelectStatus::NotReady => 2,
            SelectStatus::Exhausted => 3,
        }
    }

    /// The code of the value.
    pub fn code(self) -> (r: u8)
        ensures
            r == self.spec_code(),
    {
        match self {
            SelectStatus::Success => 0,
            SelectStatus::AlreadyActive => 1,
            SelectStatus::NotReady => 2,
            SelectStatus::Exhausted => 3,
        }
    }
}

/// The outcome of a deselect request.
#[derive(Debug, Clone, Copy, PartialEq, Eq, Structural)]
pub enum DeselectStatus {
    Success,
    NotEstablished,
    Busy,
}

impl DeselectStatus {
    /// The code of the value.
    pub open spec fn spec_code(self) -> u8 {
        match self {
            DeselectStatus::Success => 0,
            DeselectStatus::NotEstablished => 1,
            DeselectStatus::Busy => 2,
        }
    }

    /// The code of the value.
    pub fn code(self) -> (r: u8)
        ensures
            r == self.spec_code(),
    {
        match self {
            DeselectStatus::Success => 0,
            DeselectStatus::NotEstablished => 1,
            DeselectStatus::Busy => 2,
        }
    }
}

/// Why a message is rejected.
#[derive(Debug, Clone, Copy, PartialEq, Eq, Structural)]
pub enum RejectReason {
    MalformedData,
    UnsupportedSessionType,
    UnsupportedPresentationType,
    TransactionNotOpen,
    EntityNotSelected,
}

impl RejectReason {
    /// The code of the value.
    pub open spec fn spec_code(self) -> u8 {
        match self {
            RejectReason::MalformedData => 0,
            RejectReason::UnsupportedSessionType => 1,
            RejectReason::UnsupportedPresentationType => 2,
            RejectReason::TransactionNotOpen => 3,
            RejectReason::EntityNotSelected => 4,
        }
    }

    /// The code of the value.
    pub fn code(self) -> (r: u8)
        ensures
            r == self.spec_code(),
    {
        match self {
            RejectReason::MalformedData => 0,
            RejectReason::UnsupportedSessionType => 1,
            RejectReason::UnsupportedPresentationType => 2,
            RejectReason::TransactionNotOpen => 3,
            RejectReason::EntityNotSelected => 4,
        }
    }
}

/// The identity of a message: its session ID and system bytes.
#[derive(Debug, Clone, Copy, PartialEq, Eq, Structural)]
pub struct HsmsMessageID {
    pub session: u16,
    pub system: u32,
}

/// The contents of an HSMS message, by kind.
#[derive(Debug)]
pub enum HsmsMessageContents {
    /// A data message carrying a SECS-II message.
    DataMessage(SecsMessage),
    SelectRequest,
    /// A select response with a select status code.
    SelectResponse(u8),
    DeselectRequest,
    /// A deselect response with a deselect status code.
    DeselectResponse(u8),
    LinktestRequest,
    LinktestResponse,
    /// A rejection with the presentation or session type of the rejected
    /// message and a reason code.
    RejectRequest(u8, u8),
    SeparateRequest,
}

/// The mathematical value of a [HsmsMessageContents].
pub enum HsmsMessageContentsV {
    DataMessage(SecsMessageV),
    SelectRequest,
    SelectResponse(u8),
    DeselectRequest,
    DeselectResponse(u8),
    LinktestRequest,
    LinktestResponse,
    RejectRequest(u8, u8),
    SeparateRequest,
}

impl View for HsmsMessageContents {
    type V = HsmsMessageContentsV;

    open spec fn view(&self) -> HsmsMessageContentsV {
        match self {
            HsmsMessageContents::DataMessage(m) => HsmsMessageContentsV::DataMessage(m@),
            HsmsMessageContents::SelectRequest => HsmsMessageContentsV::SelectRequest,
            HsmsMessageContents::SelectResponse(s) => HsmsMessageContentsV::SelectResponse(*s),
            HsmsMessageContents::DeselectRequest => HsmsMessageContentsV::DeselectRequest,
            HsmsMessageContents::DeselectResponse(s) => HsmsMessageContentsV::DeselectResponse(*s),
            HsmsMessageContents::LinktestRequest => HsmsMessageContentsV::LinktestRequest,
            HsmsMessageContents::LinktestResponse => HsmsMessageContentsV::LinktestResponse,
            HsmsMessageContents::RejectRequest(t, r) => HsmsMessageContentsV::RejectRequest(*t, *r),
            HsmsMessageContents::SeparateRequest => HsmsMessageContentsV::SeparateRequest,
        }
    }
}

/// An HSMS message: its identity and its contents.
#[derive(Debug)]
pub struct HsmsMessage {
    pub id: HsmsMessageID,
    pub contents: HsmsMessageContents,
}

/// The mathematical value of an [HsmsMessage].
pub struct HsmsMessageV {
    pub id: HsmsMessageID,
    pub contents: HsmsMessageContentsV,
}

impl View for HsmsMessage {
    type V = HsmsMessageV;

    open spec fn view(&self) -> HsmsMessageV {
        HsmsMessageV { id: self.id, contents: self.contents@ }
    }
}

/// A primitive message with no text and presentation type 0.
pub open spec fn control_message(
    session_id: u16,
    byte_2: u8,
    byte_3: u8,
    session_type: u8,
    system: u32,
) -> PrimitiveMessageV {
    PrimitiveMessageV {
        header: PrimitiveMessageHeader {
            session_id,
            byte_2,
            byte_3,
            presentation_type: 0,
            session_type,
            system,
        },
        text: Seq::empty(),
    }
}

/// The primitive message that an HSMS message is sent as; a data message's
/// text is the encoding of its body, empty when it has none.
pub open spec fn primitive_of(h: HsmsMessageV) -> PrimitiveMessageV {
    let sid = h.id.session;
    let sys = h.id.system;
    match h.contents {
        HsmsMessageContentsV::DataMessage(d) => PrimitiveMessageV {
            header: PrimitiveMessageHeader {
                session_id: sid,
                byte_2: data_byte_2(d.w, d.stream),
                byte_3: d.function,
                presentation_type: 0,
                session_type: 0,
                system: sys,
            },
            text: text_of(d.body),
        },
        HsmsMessageContentsV::SelectRequest => control_message(sid, 0, 0, 1, sys),
        HsmsMessageContentsV::SelectResponse(s) => control_message(sid, 0, s, 2, sys),
        HsmsMessageContentsV::DeselectRequest => control_message(sid, 0, 0, 3, sys),
        HsmsMessageContentsV::DeselectResponse(s) => control_message(sid, 0, s, 4, sys),
        HsmsMessageContentsV::LinktestRequest => control_message(0xFFFF, 0, 0, 5, sys),
        HsmsMessageContentsV::LinktestResponse => control_message(0xFFFF, 0, 0, 6, sys),
        HsmsMessageContentsV::RejectRequest(t, r) => control_message(sid, t, r, 7, sys),
        HsmsMessageContentsV::SeparateRequest => control_message(sid, 0, 0, 9, sys),
    }
}

/// The contents that a received primitive message holds, or why it is
/// rejected: presentation type other than 0, session type unknown, header
/// bytes or text that the session type does not allow, or data message text
/// that is neither empty nor one item.
pub open spec fn contents_of(m: PrimitiveMessageV) -> Result<HsmsMessageContentsV, RejectReason> {
    let h = m.header;
    let st = h.session_type;
    let empty = m.text.len() == 0;
    if h.presentation_type != 0 {
        Err(RejectReason::UnsupportedPresentationType)
    } else if st == 0 {
        match body_of(m.text) {
            Some(body) => Ok(
                HsmsMessageContentsV::DataMessage(
                    SecsMessageV {
                        stream: stream_of(h.byte_2),
                        function: h.byte_3,
                        w: w_of(h.byte_2),
                        body,
                    },
                ),
            ),
            None => Err(RejectReason::MalformedData),
        }
    } else if st == 1 {
        if h.byte_2 != 0 || h.byte_3 != 0 || !empty {
            Err(RejectReason::MalformedData)
        } else {
            Ok(HsmsMessageContentsV::SelectRequest)
        }
    } else if st == 2 {
        if h.byte_2 != 0 || !empty {
            Err(RejectReason::MalformedData)
        } else {
            Ok(HsmsMessageContentsV::SelectResponse(h.byte_3))
        }
    } else if st == 3 {
        if h.byte_2 != 0 || h.byte_3 != 0 || !empty {
            Err(RejectReason::MalformedData)
        } else {
            Ok(HsmsMessageContentsV::DeselectRequest)
        }
    } else if st == 4 {
        if h.byte_2 != 0 || !empty {
            Err(RejectReason::MalformedData)
        } else {
            Ok(HsmsMessageContentsV::DeselectResponse(h.byte_3))
        }
    } else if st == 5 {
        if h.session_id != 0xFFFF || h.byte_2 != 0 || h.byte_3 != 0 || !empty {
            Err(RejectReason::MalformedData)
        } else {
            Ok(HsmsMessageContentsV::LinktestRequest)
        }
    } else if st == 6 {
        if h.session_id != 0xFFFF || h.byte_2 != 0 || h.byte_3 != 0 || !empty {
            Err(RejectReason::MalformedData)
        } else {
            Ok(HsmsMessageContentsV::LinktestResponse)
        }
    } else if st == 7 {
        if !empty {
            Err(RejectReason::MalformedData)
        } else {
            Ok(HsmsMessageContentsV::RejectRequest(h.byte_2, h.byte_3))
        }
    } else if st == 9 {
        if h.byte_2 != 0 || h.byte_3 != 0 || !empty {
            Err(RejectReason::MalformedData)
        } else {
            Ok(HsmsMessageContentsV::SeparateRequest)
        }
    } else {
        Err(RejectReason::UnsupportedSessionType)
    }
}

/// The HSMS message that a received primitive message holds, or why it is
/// rejected; its identity is the header's session ID and system bytes.
pub open spec fn hsms_of(m: PrimitiveMessageV) -> Result<HsmsMessageV, RejectReason> {
    match contents_of(m) {
        Ok(c) => Ok(HsmsMessageV { id: HsmsMessageID { session: m.header.session_id, system: m.header.system }, contents: c }),
        Err(e) => Err(e),
    }
}

/// The HSMS messages that can be sent and are received as themselves: a data
/// message's stream leaves the reply bit free and its body has an encoding;
/// linktest messages have session ID 0xFFFF.
pub open spec fn wf_hsms(h: HsmsMessageV) -> bool {
    match h.contents {
        HsmsMessageContentsV::DataMessage(d) => d.stream < 128 && match d.body {
            Some(item) => wf(item),
            None => true,
        },
        HsmsMessageContentsV::LinktestRequest => h.id.session == 0xFFFF,
        HsmsMessageContentsV::LinktestResponse => h.id.session == 0xFFFF,
        _ => true,
    }
}

/// The HSMS messages that can be sent: a data message's body has an
/// encoding.
pub open spec fn sendable(h: HsmsMessageV) -> bool {
    match h.contents {
        HsmsMessageContentsV::DataMessage(d) => match d.body {
            Some(item) => wf(item),
            None => true,
        },
        _ => true,
    }
}

/// Receiving what an HSMS message is sent as gives the message back.
pub proof fn lemma_hsms_roundtrip(h: HsmsMessageV)
    requires
        wf_hsms(h),
    ensures
        hsms_of(primitive_of(h)) == Ok::<HsmsMessageV, RejectReason>(h),
{
    match h.contents {
        HsmsMessageContentsV::DataMessage(d) => {
            lemma_byte_2(d.w, d.stream);
            lemma_body_roundtrip(d.body);
        },
        _ => {},
    }
}

/// A received message that is accepted is well-formed ([wf_hsms]), so that
/// [lemma_hsms_roundtrip] applies to it.
pub proof fn lemma_received_wf(p: PrimitiveMessageV)
    ensures
        hsms_of(p) matches Ok(h) ==> wf_hsms(h),
{
    if hsms_of(p) is Ok {
        lemma_byte_2_back(p.header.byte_2);
        lemma_body_wf(p.text);
    }
}

/// A primitive message with no text and presentation type 0.
fn control(session_id: u16, byte_2: u8, byte_3: u8, session_type: u8, system: u32) -> (r: PrimitiveMessage)
    ensures
        r@ == control_message(session_id, byte_2, byte_3, session_type, system),
{
    let text: Vec<u8> = Vec::new();
    PrimitiveMessage {
        header: PrimitiveMessageHeader {
            session_id,
            byte_2,
            byte_3,
            presentation_type: 0,
            session_type,
            system,
        },
        text,
    }
}

impl HsmsMessage {
    /// The primitive message that this HSMS message is sent as.
    pub fn into_primitive(self) -> (r: PrimitiveMessage)
        requires
            sendable(self@),
        ensures
            r@ == primitive_of(self@),
    {
        let sid = self.id.session;
        let sys = self.id.system;
        match self.contents {
            HsmsMessageContents::DataMessage(d) => {
                let flag: u8 = if d.w { 0x80 } else { 0 };
                let text = text_bytes(d.body);
                PrimitiveMessage {
                    header: PrimitiveMessageHeader {
                        session_id: sid,
                        byte_2: flag | d.stream,
                        byte_3: d.function,
                        presentation_type: PresentationType::SecsII.code(),
                        session_type: SessionType::DataMessage.code(),
                        system: sys,
                    },
                    text,
                }
            },
            HsmsMessageContents::SelectRequest => control(sid, 0, 0, SessionType::SelectRequest.code(), sys),
            HsmsMessageContents::SelectResponse(s) => control(sid, 0, s, SessionType::SelectResponse.code(), sys),
            HsmsMessageContents::DeselectRequest => control(sid, 0, 0, SessionType::DeselectRequest.code(), sys),
            HsmsMessageContents::DeselectResponse(s) => control(sid, 0, s, SessionType::DeselectResponse.code(), sys),
            HsmsMessageContents::LinktestRequest => control(0xFFFF, 0, 0, SessionType::LinktestRequest.code(), sys),
            HsmsMessageContents::LinktestResponse => control(0xFFFF, 0, 0, SessionType::LinktestResponse.code(), sys),
            HsmsMessageContents::RejectRequest(t, r) => control(sid, t, r, SessionType::RejectRequest.code(), sys),
            HsmsMessageContents::SeparateRequest => control(sid, 0, 0, SessionType::SeparateRequest.code(), sys),
        }
    }

    /// The HSMS message that a received primitive message holds, or why it
    /// is rejected.
    pub fn try_from_primitive(message: PrimitiveMessage) -> (r: Result<HsmsMessage, RejectReason>)
        ensures
            match r {
                Ok(h) => hsms_of(message@) == Ok::<HsmsMessageV, RejectReason>(h@),
                Err(e) => hsms_of(message@) == Err::<HsmsMessageV, RejectReason>(e),
            },
    {
        let h = message.header;
        let id = HsmsMessageID { session: h.session_id, system: h.system };
        let empty = message.text.len() == 0;
        if h.presentation_type != 0 {
            return Err(RejectReason::UnsupportedPresentationType);
        }
        let contents = match h.session_type {
            0 => match text_body(message.text) {
                Some(body) => HsmsMessageContents::DataMessage(
                    SecsMessage {
                        stream: h.byte_2 & 0x7f,
                        function: h.byte_3,
                        w: h.byte_2 & 0x80 > 0,
                        body,
                    },
                ),
                None => {
                    return Err(RejectReason::MalformedData);
                },
            },
            1 => if h.byte_2 != 0 || h.byte_3 != 0 || !empty {
                return Err(RejectReason::MalformedData);
            } else {
                HsmsMessageContents::SelectRequest
            },
            2 => if h.byte_2 != 0 || !empty {
                return Err(RejectReason::MalformedData);
            } else {
                HsmsMessageContents::SelectResponse(h.byte_3)
            },
            3 => if h.byte_2 != 0 || h.byte_3 != 0 || !empty {
                return Err(RejectReason::MalformedData);
            } else {
                HsmsMessageContents::DeselectRequest
            },
            4 => if h.byte_2 != 0 || !empty {
                return Err(RejectReason::MalformedData);
            } else {
                HsmsMessageContents::DeselectResponse(h.byte_3)
            },
            5 => if h.session_id != 0xFFFF || h.byte_2 != 0 || h.byte_3 != 0 || !empty {
                return Err(RejectReason::MalformedData);
            } else {
                HsmsMessageContents::LinktestRequest
            },
            6 => if h.session_id != 0xFFFF || h.byte_2 != 0 || h.byte_3 != 0 || !empty {
                return Err(RejectReason::MalformedData);
            } else {
                HsmsMessageContents::LinktestResponse
            },
            7 => if !empty {
                return Err(RejectReason::MalformedData);
            } else {
                HsmsMessageContents::RejectRequest(h.byte_2, h.byte_3)
            },
            9 => if h.byte_2 != 0 || h.byte_3 != 0 || !empty {
                return Err(RejectReason::MalformedData);
            } else {
                HsmsMessageContents::SeparateRequest
            },
            _ => {
                return Err(RejectReason::UnsupportedSessionType);
            },
        };
        Ok(HsmsMessage { id, contents })
    }
}

/// An open transaction: the key it is kept under and the ID of the message
/// that opened it.
#[derive(Debug, Clone, Copy, PartialEq, Eq, Structural)]
pub struct Transaction {
    pub key: u32,
    pub id: HsmsMessageID,
}

/// The key of the first open transaction with this ID, if any.
pub open spec fn transaction_key(outbox: Seq<Transaction>, id: HsmsMessageID) -> Option<u32>
    decreases outbox.len(),
{
    if outbox.len() == 0 {
        None
    } else if outbox[0].id == id {
        Some(outbox[0].key)
    } else {
        transaction_key(outbox.drop_first(), id)
    }
}

/// The key of the first open transaction with this ID, if any.
pub fn find_transaction(outbox: &Vec<Transaction>, id: HsmsMessageID) -> (r: Option<u32>)
    ensures
        r == transaction_key(outbox@, id),
{
    let mut i: usize = 0;
    assert(outbox@.skip(0) =~= outbox@);
    while i < outbox.len()
        invariant
            i <= outbox.len(),
            transaction_key(outbox@, id) == transaction_key(outbox@.skip(i as int), id),
        decreases outbox.len() - i,
    {
        if outbox[i].id == id {
            assert(outbox@.skip(i as int)[0] == outbox@[i as int]);
            return Some(outbox[i].key);
        }
        assert(outbox@.skip(i as int).drop_first() =~= outbox@.skip(i + 1));
        i = i + 1;
    }
    assert(outbox@.skip(i as int).len() == 0);
    None
}

/// The key found for an ID is that of an open transaction with that ID, and
/// none is found exactly when no open transaction has it.
pub proof fn lemma_transaction_key(outbox: Seq<Transaction>, id: HsmsMessageID)
    ensures
        match transaction_key(outbox, id) {
            Some(k) => exists|i: int| 0 <= i < outbox.len() && #[trigger] outbox[i].key == k && outbox[i].id == id,
            None => forall|i: int| 0 <= i < outbox.len() ==> #[trigger] outbox[i].id != id,
        },
    decreases outbox.len(),
{
    if outbox.len() > 0 {
        let rest = outbox.drop_first();
        lemma_transaction_key(rest, id);
        if outbox[0].id != id {
            match transaction_key(rest, id) {
                Some(k) => {
                    let j = choose|j: int| 0 <= j < rest.len() && #[trigger] rest[j].key == k && rest[j].id == id;
                    assert(outbox[j + 1] == rest[j]);
                },
                None => {
                    assert forall|i: int| 0 <= i < outbox.len() implies #[trigger] outbox[i].id != id by {
                        if i > 0 {
                            assert(outbox[i] == rest[i - 1]);
                        }
                    }
                },
            }
        }
    }
}

/// What the client does with a received message.
#[derive(Debug)]
pub enum ClientAction {
    /// Hand the primary data message to the application.
    Deliver(HsmsMessageID, SecsMessage),
    /// Complete the open transaction with this key with the reply; `None`
    /// when the reply is a rejection.
    Complete(u32, Option<HsmsMessage>),
    /// Transmit the message.
    Send(HsmsMessage),
    /// Nothing to do.
    Ignore,
}

/// The mathematical value of a [ClientAction].
pub enum ClientActionV {
    Deliver(HsmsMessageID, SecsMessageV),
    Complete(u32, Option<HsmsMessageV>),
    Send(HsmsMessageV),
    Ignore,
}

impl View for ClientAction {
    type V = ClientActionV;

    open spec fn view(&self) -> ClientActionV {
        match self {
            ClientAction::Deliver(id, m) => ClientActionV::Deliver(*id, m@),
            ClientAction::Complete(k, m) => ClientActionV::Complete(
                *k,
                match m {
                    Some(x) => Some(x@),
                    None => None,
                },
            ),
            ClientAction::Send(m) => ClientActionV::Send(m@),
            ClientAction::Ignore => ClientActionV::Ignore,
        }
    }
}

/// A rejection of the message with this ID.
pub open spec fn reject_of(id: HsmsMessageID, message_type: u8, reason: RejectReason) -> HsmsMessageV {
    HsmsMessageV { id, contents: HsmsMessageContentsV::RejectRequest(message_type, reason.spec_code()) }
}

/// A reply to a transaction: it completes the first open transaction with
/// its ID, else it is rejected with the given message type.
pub open spec fn reply_action(outbox: Seq<Transaction>, m: HsmsMessageV, message_type: u8) -> ClientActionV {
    match transaction_key(outbox, m.id) {
        Some(k) => ClientActionV::Complete(k, Some(m)),
        None => ClientActionV::Send(reject_of(m.id, message_type, RejectReason::TransactionNotOpen)),
    }
}

/// The received messages the client does not handle: deselect requests and
/// responses.
pub open spec fn unhandled(p: PrimitiveMessageV) -> bool {
    hsms_of(p) matches Ok(m) && (m.contents is DeselectRequest || m.contents is DeselectResponse)
}

/// What the client does with a received primitive message, given its
/// selection state, its open transactions, and whether the selection lock
/// was free: the new selection state and the action.
pub open spec fn receive_spec(
    state: SelectionState,
    outbox: Seq<Transaction>,
    lock_acquired: bool,
    p: PrimitiveMessageV,
) -> (SelectionState, ClientActionV) {
    match hsms_of(p) {
        Err(reason) => (
            state,
            ClientActionV::Send(
                reject_of(
                    HsmsMessageID { session: p.header.session_id, system: p.header.system },
                    if reason == RejectReason::UnsupportedPresentationType {
                        p.header.presentation_type
                    } else {
                        p.header.session_type
                    },
                    reason,
                ),
            ),
        ),
        Ok(m) => match m.contents {
            HsmsMessageContentsV::DataMessage(data) => if state == SelectionState::Selected {
                if data.function % 2 == 1 {
                    (state, ClientActionV::Deliver(m.id, data))
                } else {
                    (state, reply_action(outbox, m, 0))
                }
            } else {
                (state, ClientActionV::Send(reject_of(m.id, 0, RejectReason::EntityNotSelected)))
            },
            HsmsMessageContentsV::SelectRequest => if !lock_acquired {
                (state, ClientActionV::Ignore)
            } else if state == SelectionState::NotSelected {
                (
                    SelectionState::Selected,
                    ClientActionV::Send(
                        HsmsMessageV {
                            id: m.id,
                            contents: HsmsMessageContentsV::SelectResponse(
                                SelectStatus::Success.spec_code(),
                            ),
                        },
                    ),
                )
            } else {
                (
                    state,
                    ClientActionV::Send(
                        HsmsMessageV {
                            id: m.id,
                            contents: HsmsMessageContentsV::SelectResponse(
                                SelectStatus::AlreadyActive.spec_code(),
                            ),
                        },
                    ),
                )
            },
            HsmsMessageContentsV::SelectResponse(_) => (state, reply_action(outbox, m, 0)),
            HsmsMessageContentsV::LinktestRequest => (
                state,
                ClientActionV::Send(
                    HsmsMessageV { id: m.id, contents: HsmsMessageContentsV::LinktestResponse },
                ),
            ),
            HsmsMessageContentsV::LinktestResponse => (
                state,
                reply_action(outbox, m, SessionType::LinktestRequest.spec_code()),
            ),
            HsmsMessageContentsV::RejectRequest(_, _) => match transaction_key(outbox, m.id) {
                Some(k) => (state, ClientActionV::Complete(k, None)),
                None => (state, ClientActionV::Ignore),
            },
            HsmsMessageContentsV::SeparateRequest => (SelectionState::NotSelected, ClientActionV::Ignore),
            _ => (state, ClientActionV::Ignore),
        },
    }
}

/// Whether the client handles a received primitive message: all but
/// well-formed deselect requests and responses.
pub fn is_handled(p: &PrimitiveMessage) -> (r: bool)
    ensures
        r == !unhandled(p@),
{
    let h = p.header;
    let empty = p.text.len() == 0;
    if h.presentation_type != 0 || h.byte_2 != 0 || !empty {
        true
    } else if h.session_type == 3 {
        h.byte_3 != 0
    } else {
        h.session_type != 4
    }
}

/// A rejection of the message with this ID.
fn reject(id: HsmsMessageID, message_type: u8, reason: RejectReason) -> (r: HsmsMessage)
    ensures
        r@ == reject_of(id, message_type, reason),
{
    HsmsMessage { id, contents: HsmsMessageContents::RejectRequest(message_type, reason.code()) }
}

/// The action for a reply to a transaction.
fn reply(outbox: &Vec<Transaction>, m: HsmsMessage, message_type: u8) -> (r: ClientAction)
    ensures
        r@ == reply_action(outbox@, m@, message_type),
{
    match find_transaction(outbox, m.id) {
        Some(k) => ClientAction::Complete(k, Some(m)),
        None => {
            let id = m.id;
            ClientAction::Send(reject(id, message_type, RejectReason::TransactionNotOpen))
        },
    }
}

/// What the client does with a received primitive message: the new
/// selection state and the action.
///
/// A message that does not convert is rejected; a primary data message is
/// delivered when selected; replies complete open transactions or are
/// rejected; a select request is answered, selecting if not selected; a
/// separate request deselects.
pub fn receive_step(
    state: SelectionState,
    outbox: &Vec<Transaction>,
    lock_acquired: bool,
    p: PrimitiveMessage,
) -> (r: (SelectionState, ClientAction))
    requires
        !unhandled(p@),
    ensures
        (r.0, r.1@) == receive_spec(state, outbox@, lock_acquired, p@),
{
    let header = p.header;
    let ghost pv = p@;
    match HsmsMessage::try_from_primitive(p) {
        Err(reason) => {
            let message_type = match reason {
                RejectReason::UnsupportedPresentationType => header.presentation_type,
                _ => header.session_type,
            };
            (
                state,
                ClientAction::Send(
                    reject(HsmsMessageID { session: header.session_id, system: header.system }, message_type, reason),
                ),
            )
        },
        Ok(m) => {
            let id = m.id;
            match m.contents {
                HsmsMessageContents::DataMessage(data) => match state {
                    SelectionState::Selected => if data.function % 2 == 1 {
                        (state, ClientAction::Deliver(id, data))
                    } else {
                        (
                            state,
                            reply(
                                outbox,
                                HsmsMessage { id, contents: HsmsMessageContents::DataMessage(data) },
                                0,
                            ),
                        )
                    },
                    SelectionState::NotSelected => (
                        state,
                        ClientAction::Send(reject(id, 0, RejectReason::EntityNotSelected)),
                    ),
                },
                HsmsMessageContents::SelectRequest => if !lock_acquired {
                    (state, ClientAction::Ignore)
                } else {
                    match state {
                        SelectionState::NotSelected => (
                            SelectionState::Selected,
                            ClientAction::Send(
                                HsmsMessage {
                                    id,
                                    contents: HsmsMessageContents::SelectResponse(
                                        SelectStatus::Success.code(),
                                    ),
                                },
                            ),
                        ),
                        SelectionState::Selected => (
                            state,
                            ClientAction::Send(
                                HsmsMessage {
                                    id,
                                    contents: HsmsMessageContents::SelectResponse(
                                        SelectStatus::AlreadyActive.code(),
                                    ),
                                },
                            ),
                        ),
                    }
                },
                HsmsMessageContents::SelectResponse(s) => (
                    state,
                    reply(outbox, HsmsMessage { id, contents: HsmsMessageContents::SelectResponse(s) }, 0),
                ),
                HsmsMessageContents::LinktestRequest => (
                    state,
                    ClientAction::Send(
                        HsmsMessage { id, contents: HsmsMessageContents::LinktestResponse },
                    ),
                ),
                HsmsMessageContents::LinktestResponse => (
                    state,
                    reply(
                        outbox,
                        HsmsMessage { id, contents: HsmsMessageContents::LinktestResponse },
                        SessionType::LinktestRequest.code(),
                    ),
                ),
                HsmsMessageContents::RejectRequest(_, _) => match find_transaction(outbox, id) {
                    Some(k) => (state, ClientAction::Complete(k, None)),
                    None => (state, ClientAction::Ignore),
                },
                HsmsMessageContents::SeparateRequest => (SelectionState::NotSelected, ClientAction::Ignore),
                HsmsMessageContents::DeselectRequest => {
                    assert(unhandled(pv));
                    (state, ClientAction::Ignore)
                },
                HsmsMessageContents::DeselectResponse(_) => {
                    assert(unhandled(pv));
                    (state, ClientAction::Ignore)
                },
            }
        },
    }
}

/// How a procedure ends: with a result, or by dropping the connection (its
/// result is then the transition that the disconnect reports).
#[derive(Debug)]
pub enum Outcome<T> {
    Finish(Result<T, ConnectionStateTransition>),
    Disconnect,
}

/// Data messages and the separate procedure need the selected state.
pub fn selected_only(state: SelectionState) -> (r: Result<(), ConnectionStateTransition>)
    ensures
        r == (if state == SelectionState::Selected {
            Ok::<(), ConnectionStateTransition>(())
        } else {
            Err::<(), ConnectionStateTransition>(ConnectionStateTransition::NoTransition)
        }),
{
    match state {
        SelectionState::Selected => Ok(()),
        SelectionState::NotSelected => Err(ConnectionStateTransition::NoTransition),
    }
}

/// The select procedure needs the not-selected state.
pub fn select_allowed(state: SelectionState) -> (r: Result<(), ConnectionStateTransition>)
    ensures
        r == (if state == SelectionState::NotSelected {
            Ok::<(), ConnectionStateTransition>(())
        } else {
            Err::<(), ConnectionStateTransition>(ConnectionStateTransition::NoTransition)
        }),
{
    match state {
        SelectionState::NotSelected => Ok(()),
        SelectionState::Selected => Err(ConnectionStateTransition::NoTransition),
    }
}

/// The value of an optional HSMS message.
pub open spec fn reply_view(m: Option<HsmsMessage>) -> Option<HsmsMessageV> {
    match m {
        Some(x) => Some(x@),
        None => None,
    }
}

/// The outcome of the data procedure, given whether a reply was expected and
/// the reply, if one came: a data reply is returned, another reply fails it,
/// and a missing expected reply drops the connection.
pub fn data_outcome(reply_expected: bool, reply: Option<HsmsMessage>) -> (r: Outcome<
    Option<SecsMessage>,
>)
    ensures
        match reply_view(reply) {
            Some(m) => match m.contents {
                HsmsMessageContentsV::DataMessage(d) => r matches Outcome::Finish(Ok(Some(x))) && x@
                    == d,
                _ => r matches Outcome::Finish(Err(t)) && t == ConnectionStateTransition::NoTransition,
            },
            None => if reply_expected {
                r is Disconnect
            } else {
                r matches Outcome::Finish(Ok(x)) && x is None
            },
        },
{
    match reply {
        Some(m) => match m.contents {
            HsmsMessageContents::DataMessage(d) => Outcome::Finish(Ok(Some(d))),
            _ => Outcome::Finish(Err(ConnectionStateTransition::NoTransition)),
        },
        None => if reply_expected {
            Outcome::Disconnect
        } else {
            Outcome::Finish(Ok(None))
        },
    }
}

/// The outcome of the select procedure, which is only attempted when not
/// selected, given the reply if one came: the new selection state and the
/// outcome. A select response of success selects.
pub fn select_outcome(reply: Option<HsmsMessage>) -> (r: (SelectionState, Outcome<()>))
    ensures
        match reply_view(reply) {
            Some(m) => match m.contents {
                HsmsMessageContentsV::SelectResponse(s) => if s == 0 {
                    r.0 == SelectionState::Selected && (r.1 matches Outcome::Finish(Ok(_)))
                } else {
                    r.0 == SelectionState::NotSelected && (r.1 matches Outcome::Finish(Err(t)) && t
                        == ConnectionStateTransition::NoTransition)
                },
                _ => r.0 == SelectionState::NotSelected && (r.1 matches Outcome::Finish(Err(t)) && t
                    == ConnectionStateTransition::NoTransition),
            },
            None => r.0 == SelectionState::NotSelected && r.1 is Disconnect,
        },
{
    match reply {
        Some(m) => match m.contents {
            HsmsMessageContents::SelectResponse(s) => if s == SelectStatus::Success.code() {
                (SelectionState::Selected, Outcome::Finish(Ok(())))
            } else {
                (
                    SelectionState::NotSelected,
                    Outcome::Finish(Err(ConnectionStateTransition::NoTransition)),
                )
            },
            _ => (
                SelectionState::NotSelected,
                Outcome::Finish(Err(ConnectionStateTransition::NoTransition)),
            ),
        },
        None => (SelectionState::NotSelected, Outcome::Disconnect),
    }
}

/// The outcome of the linktest procedure, given the reply if one came.
pub fn linktest_outcome(reply: Option<HsmsMessage>) -> (r: Outcome<()>)
    ensures
        match reply_view(reply) {
            Some(m) => match m.contents {
                HsmsMessageContentsV::LinktestResponse => r matches Outcome::Finish(Ok(_)),
                _ => r matches Outcome::Finish(Err(t)) && t == ConnectionStateTransition::NoTransition,
            },
            None => r is Disconnect,
        },
{
    match reply {
        Some(m) => match m.contents {
            HsmsMessageContents::LinktestResponse => Outcome::Finish(Ok(())),
            _ => Outcome::Finish(Err(ConnectionStateTransition::NoTransition)),
        },
        None => Outcome::Disconnect,
    }
}

/// The parameter settings of a client (SEMI E37 section 10.2): connection
/// mode and timeouts.
#[derive(Debug, Clone, Copy)]
pub struct ParameterSettings {
    pub connect_mode: ConnectionMode,
    /// Reply timeout.
    pub t3: std::time::Duration,
    /// Connection separation timeout.
    pub t5: std::time::Duration,
    /// Control transaction timeout.
    pub t6: std::time::Duration,
    /// Not-selected timeout.
    pub t7: std::time::Duration,
    /// Network intercharacter timeout.
    pub t8: std::time::Duration,
}

impl Default for ParameterSettings {
    /// The default settings: passive mode, and T3 45 s, T5 10 s, T6 5 s,
    /// T7 10 s, T8 5 s.
    fn default() -> (r: Self)
        ensures
            r.connect_mode == ConnectionMode::Passive,
            r.t3 == duration_from_secs(45),
            r.t5 == duration_from_secs(10),
            r.t6 == duration_from_secs(5),
            r.t7 == duration_from_secs(10),
            r.t8 == duration_from_secs(5),
    {
        ParameterSettings {
            connect_mode: ConnectionMode::default(),
            t3: seconds(45),
            t5: seconds(10),
            t6: seconds(5),
            t7: seconds(10),
            t8: seconds(5),
        }
    }
}

/// The bytes that send a message: the length of header and text, the
/// header, then the text.
pub fn frame(message: &PrimitiveMessage) -> (r: Vec<u8>)
    requires
        message.text.len() + 10 <= usize::MAX,
    ensures
        r@ == wire_seq(message.header.spec_bytes(), message.text@),
{
    frame_bytes(message.header.to_bytes(), &message.text)
}

/// Reading back what [frame] sends: the 4 length bytes give the number of
/// bytes that follow, at least the 10 of a header, and those bytes hold the
/// message.
pub proof fn lemma_frame_read(m: PrimitiveMessageV)
    requires
        10 + m.text.len() < 0x1_0000_0000,
    ensures
        ({
            let w = wire_seq(m.header.spec_bytes(), m.text);
            &&& u32_of(w[0], w[1], w[2], w[3]) == 10 + m.text.len()
            &&& message_of_bytes(w.skip(4)) == Some(m)
        }),
{
    let h = m.header.spec_bytes();
    lemma_wire_read(h, m.text);
    assert(h + m.text == message_bytes(m));
    lemma_message_roundtrip(m);
}

/// The codes of session types, select and deselect statuses and reject
/// reasons (SEMI E37 section 8).
pub proof fn lemma_codes()
    ensures
        SessionType::DataMessage.spec_code() == 0,
        SessionType::SelectRequest.spec_code() == 1,
        SessionType::SelectResponse.spec_code() == 2,
        SessionType::DeselectRequest.spec_code() == 3,
        SessionType::DeselectResponse.spec_code() == 4,
        SessionType::LinktestRequest.spec_code() == 5,
        SessionType::LinktestResponse.spec_code() == 6,
        SessionType::RejectRequest.spec_code() == 7,
        SessionType::SeparateRequest.spec_code() == 9,
        SelectStatus::Success.spec_code() == 0,
        SelectStatus::AlreadyActive.spec_code() == 1,
        SelectStatus::NotReady.spec_code() == 2,
        SelectStatus::Exhausted.spec_code() == 3,
        DeselectStatus::Success.spec_code() == 0,
        DeselectStatus::NotEstablished.spec_code() == 1,
        DeselectStatus::Busy.spec_code() == 2,
        RejectReason::MalformedData.spec_code() == 0,
        RejectReason::UnsupportedSessionType.spec_code() == 1,
        RejectReason::UnsupportedPresentationType.spec_code() == 2,
        RejectReason::TransactionNotOpen.spec_code() == 3,
        RejectReason::EntityNotSelected.spec_code() == 4,
{
}

} // verus!
