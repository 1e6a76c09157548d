//! What the HSMS conversions and the generic client's receive step do, stated
//! over their inputs and results.
use vstd::prelude::*;
use crate::hsms::{
    hsms_of, message_of, receive_spec, rejection_of, transaction_key, DataMessageV, GenericActionV, HsmsMessageV,
    LinktestRequest, LinktestResponse, MessageHeader, MessageV, RejectReason, RejectRequest, SelectRequest,
    SelectResponse, SelectionState, SeparateRequest, SessionType, Transaction,
};

verus! {

/// The first open transaction with these system bytes and session type is the
/// one at index `j`.
pub open spec fn first_match(outbox: Seq<Transaction>, system: u32, st: SessionType, j: int) -> bool {
    &&& 0 <= j < outbox.len()
    &&& outbox[j].system == system
    &&& outbox[j].session_type == st
    &&& forall|i: int| 0 <= i < j ==> !(#[trigger] outbox[i].system == system && outbox[i].session_type == st)
}

/// No open transaction has these system bytes and session type.
pub open spec fn no_match(outbox: Seq<Transaction>, system: u32, st: SessionType) -> bool {
    forall|i: int| 0 <= i < outbox.len() ==> !(#[trigger] outbox[i].system == system && outbox[i].session_type == st)
}

/// The key looked up is that of the first matching open transaction, and
/// there is none exactly when no open transaction matches.
pub proof fn lemma_key_is_first(outbox: Seq<Transaction>, system: u32, st: SessionType)
    ensures
        forall|j: int| first_match(outbox, system, st, j) ==> transaction_key(outbox, system, st) == Some(outbox[j].key),
        no_match(outbox, system, st) ==> transaction_key(outbox, system, st) is None,
    decreases outbox.len(),
{
    if outbox.len() > 0 {
        let rest = outbox.drop_first();
        lemma_key_is_first(rest, system, st);
        assert forall|j: int| first_match(outbox, system, st, j) implies transaction_key(outbox, system, st) == Some(outbox[j].key) by {
            if j > 0 {
                assert(!(outbox[0].system == system && outbox[0].session_type == st));
                assert(outbox[j] == rest[j - 1]);
                assert forall|i: int| 0 <= i < j - 1 implies !(#[trigger] rest[i].system == system && rest[i].session_type == st) by {
                    assert(rest[i] == outbox[i + 1]);
                }
                assert(first_match(rest, system, st, j - 1));
            }
        }
        if no_match(outbox, system, st) {
            assert(!(outbox[0].system == system && outbox[0].session_type == st));
            assert forall|i: int| 0 <= i < rest.len() implies !(#[trigger] rest[i].system == system && rest[i].session_type == st) by {
                assert(rest[i] == outbox[i + 1]);
            }
        }
    }
}

/// The rejection of a message with this session ID and system bytes, with
/// message type 0 and this reason code.
pub open spec fn rejection(session_id: u16, reason_code: u8, system: u32) -> HsmsMessageV {
    HsmsMessageV::RejectRequest(RejectRequest { session_id, message_type: 0, reason_code, system })
}

/// A primary data message (odd function) received while selected is
/// delivered to the application, whatever its reply bit; the state stays.
pub proof fn lemma_primary_data_delivered(state: SelectionState, outbox: Seq<Transaction>, d: DataMessageV)
    requires
        state is Selected,
        d.function % 2 == 1,
    ensures
        receive_spec(state, outbox, HsmsMessageV::DataMessage(d)) == (state, GenericActionV::Deliver(d)),
{
}

/// A reply data message (even function) received while selected completes
/// the first open data transaction with its system bytes; with none open it
/// is rejected with reason 3 (transaction not open).
pub proof fn lemma_reply_data(state: SelectionState, outbox: Seq<Transaction>, d: DataMessageV)
    requires
        state is Selected,
        d.function % 2 == 0,
    ensures
        forall|j: int| first_match(outbox, d.system, SessionType::DataMessage, j) ==> receive_spec(
            state,
            outbox,
            HsmsMessageV::DataMessage(d),
        ) == (state, GenericActionV::Complete(outbox[j].key, HsmsMessageV::DataMessage(d))),
        no_match(outbox, d.system, SessionType::DataMessage) ==> receive_spec(
            state,
            outbox,
            HsmsMessageV::DataMessage(d),
        ) == (state, GenericActionV::Send(rejection(d.session_id, 3, d.system))),
{
    lemma_key_is_first(outbox, d.system, SessionType::DataMessage);
}

/// Any data message received while not selected is rejected with reason 4
/// (entity not selected).
pub proof fn lemma_data_not_selected(outbox: Seq<Transaction>, d: DataMessageV)
    ensures
        receive_spec(SelectionState::NotSelected, outbox, HsmsMessageV::DataMessage(d)) == (
            SelectionState::NotSelected,
            GenericActionV::Send(rejection(d.session_id, 4, d.system)),
        ),
{
}

/// A select request selects its session with status 0 when no session is
/// selected, and is answered with status 1 (already active) otherwise.
pub proof fn lemma_select_request(state: SelectionState, outbox: Seq<Transaction>, r: SelectRequest)
    ensures
        state is NotSelected ==> receive_spec(state, outbox, HsmsMessageV::SelectRequest(r)) == (
            SelectionState::Selected(r.session_id),
            GenericActionV::Send(
                HsmsMessageV::SelectResponse(SelectResponse { session_id: r.session_id, status: 0, system: r.system }),
            ),
        ),
        state is Selected ==> receive_spec(state, outbox, HsmsMessageV::SelectRequest(r)) == (
            state,
            GenericActionV::Send(
                HsmsMessageV::SelectResponse(SelectResponse { session_id: r.session_id, status: 1, system: r.system }),
            ),
        ),
{
}

/// A linktest request is answered with a linktest response with its system
/// bytes, in any state.
pub proof fn lemma_linktest_request(state: SelectionState, outbox: Seq<Transaction>, r: LinktestRequest)
    ensures
        receive_spec(state, outbox, HsmsMessageV::LinktestRequest(r)) == (
            state,
            GenericActionV::Send(HsmsMessageV::LinktestResponse(LinktestResponse { system: r.system })),
        ),
{
}

/// A linktest response completes the first open linktest transaction with
/// its system bytes; with none open it is rejected with reason 3.
pub proof fn lemma_linktest_response(state: SelectionState, outbox: Seq<Transaction>, r: LinktestResponse)
    ensures
        forall|j: int| first_match(outbox, r.system, SessionType::LinktestRequest, j) ==> receive_spec(
            state,
            outbox,
            HsmsMessageV::LinktestResponse(r),
        ) == (state, GenericActionV::Complete(outbox[j].key, HsmsMessageV::LinktestResponse(r))),
        no_match(outbox, r.system, SessionType::LinktestRequest) ==> receive_spec(
            state,
            outbox,
            HsmsMessageV::LinktestResponse(r),
        ) == (state, GenericActionV::Send(rejection(0xFFFF, 3, r.system))),
{
    lemma_key_is_first(outbox, r.system, SessionType::LinktestRequest);
}

/// A separate request ends the selection of its own session and nothing
/// else; it is never answered.
pub proof fn lemma_separate_request(state: SelectionState, outbox: Seq<Transaction>, r: SeparateRequest)
    ensures
        receive_spec(state, outbox, HsmsMessageV::SeparateRequest(r)) == (
            if state == SelectionState::Selected(r.session_id) {
                SelectionState::NotSelected
            } else {
                state
            },
            GenericActionV::Ignore,
        ),
{
}

/// The header that each kind of message is sent with (SEMI E37 table 2):
/// presentation type 0 and session types 0 to 7 and 9; a data message's
/// header byte 2 is its stream plus 128 when it asks for a reply; linktest
/// messages have session ID 0xFFFF; control messages have no text.
pub proof fn lemma_sent_headers(h: HsmsMessageV)
    ensures
        ({
            let hd = message_of(h).header;
            &&& hd.presentation_type == 0
            &&& match h {
                HsmsMessageV::DataMessage(d) => {
                    &&& hd.session_type == 0
                    &&& hd.session_id == d.session_id
                    &&& d.stream < 128 ==> hd.byte_2 == (if d.w { d.stream + 128 } else { d.stream as int })
                    &&& hd.byte_3 == d.function
                    &&& hd.system == d.system
                    &&& message_of(h).text == d.text
                },
                HsmsMessageV::SelectRequest(r) => hd == MessageHeader {
                    session_id: r.session_id, byte_2: 0, byte_3: 0, presentation_type: 0, session_type: 1, system: r.system },
                HsmsMessageV::SelectResponse(r) => hd == MessageHeader {
                    session_id: r.session_id, byte_2: 0, byte_3: r.status, presentation_type: 0, session_type: 2, system: r.system },
                HsmsMessageV::DeselectRequest(r) => hd == MessageHeader {
                    session_id: r.session_id, byte_2: 0, byte_3: 0, presentation_type: 0, session_type: 3, system: r.system },
                HsmsMessageV::DeselectResponse(r) => hd == MessageHeader {
                    session_id: r.session_id, byte_2: 0, byte_3: r.status, presentation_type: 0, session_type: 4, system: r.system },
                HsmsMessageV::LinktestRequest(r) => hd == MessageHeader {
                    session_id: 0xFFFF, byte_2: 0, byte_3: 0, presentation_type: 0, session_type: 5, system: r.system },
                HsmsMessageV::LinktestResponse(r) => hd == MessageHeader {
                    session_id: 0xFFFF, byte_2: 0, byte_3: 0, presentation_type: 0, session_type: 6, system: r.system },
                HsmsMessageV::RejectRequest(r) => hd == MessageHeader {
                    session_id: r.session_id, byte_2: r.message_type, byte_3: r.reason_code, presentation_type: 0,
                    session_type: 7, system: r.system },
                HsmsMessageV::SeparateRequest(r) => hd == MessageHeader {
                    session_id: r.session_id, byte_2: 0, byte_3: 0, presentation_type: 0, session_type: 9, system: r.system },
            }
        }),
        !(h is DataMessage) ==> message_of(h).text.len() == 0,
{
    if let HsmsMessageV::DataMessage(d) = h {
        let s = d.stream;
        if s < 128 {
            assert(s < 128 ==> (0x80u8 | s) == s + 128 && (0u8 | s) == s) by (bit_vector);
        }
    }
}

/// Why received messages are refused: a presentation type other than 0, or
/// else a session type outside 0 to 7 and 9; any other refusal is malformed
/// data.
pub proof fn lemma_refusals(m: MessageV)
    ensures
        m.header.presentation_type != 0 ==> hsms_of(m) == Err::<HsmsMessageV, RejectReason>(
            RejectReason::UnsupportedPresentationType,
        ),
        m.header.presentation_type == 0 && (m.header.session_type == 8 || m.header.session_type > 9)
            ==> hsms_of(m) == Err::<HsmsMessageV, RejectReason>(RejectReason::UnsupportedSessionType),
        m.header.presentation_type == 0 && m.header.session_type != 8 && m.header.session_type <= 9
            ==> (hsms_of(m) matches Err(e) ==> e == RejectReason::MalformedData),
        m.header.presentation_type == 0 && m.header.session_type == 0 ==> hsms_of(m) is Ok,
{
}

/// The rejection that answers a refused message carries the message's
/// session ID and system bytes, its session type as message type, and the
/// reason's code.
pub proof fn lemma_rejection(header: MessageHeader, reason: RejectReason)
    ensures
        rejection_of(header, reason) == (RejectRequest {
            session_id: header.session_id,
            message_type: header.session_type,
            reason_code: reason.spec_code(),
            system: header.system,
        }),
{
}

} // verus!
