//! What the HSMS conversions and the client's receive step of the crate root
//! do, stated over their inputs and results.
use vstd::prelude::*;
use crate::hsms::{lemma_byte_2_back, stream_of, w_of};
use crate::semi_e37::{
    contents_of, hsms_of, primitive_of, receive_spec, transaction_key, ClientActionV, HsmsMessageContentsV,
    HsmsMessageID, HsmsMessageV, PrimitiveMessageV, RejectReason, SelectionState, Transaction,
};

verus! {

/// The first open transaction with this ID is the one at index `j`.
pub open spec fn first_match(outbox: Seq<Transaction>, id: HsmsMessageID, j: int) -> bool {
    &&& 0 <= j < outbox.len()
    &&& outbox[j].id == id
    &&& forall|i: int| 0 <= i < j ==> #[trigger] outbox[i].id != id
}

/// No open transaction has this ID.
pub open spec fn no_match(outbox: Seq<Transaction>, id: HsmsMessageID) -> bool {
    forall|i: int| 0 <= i < outbox.len() ==> #[trigger] outbox[i].id != id
}

/// The key looked up is that of the first open transaction with the ID, and
/// there is none exactly when no open transaction has it.
pub proof fn lemma_key_is_first(outbox: Seq<Transaction>, id: HsmsMessageID)
    ensures
        forall|j: int| first_match(outbox, id, j) ==> transaction_key(outbox, id) == Some(outbox[j].key),
        no_match(outbox, id) ==> transaction_key(outbox, id) is None,
    decreases outbox.len(),
{
    if outbox.len() > 0 {
        let rest = outbox.drop_first();
        lemma_key_is_first(rest, id);
        assert forall|j: int| first_match(outbox, id, j) implies transaction_key(outbox, id) == Some(outbox[j].key) by {
            if j > 0 {
                assert(outbox[0].id != id);
                assert(outbox[j] == rest[j - 1]);
                assert forall|i: int| 0 <= i < j - 1 implies #[trigger] rest[i].id != id by {
                    assert(rest[i] == outbox[i + 1]);
                }
                assert(first_match(rest, id, j - 1));
            }
        }
        if no_match(outbox, id) {
            assert(outbox[0].id != id);
            assert forall|i: int| 0 <= i < rest.len() implies #[trigger] rest[i].id != id by {
                assert(rest[i] == outbox[i + 1]);
            }
        }
    }
}

/// A message with this ID and contents.
pub open spec fn msg(id: HsmsMessageID, contents: HsmsMessageContentsV) -> HsmsMessageV {
    HsmsMessageV { id, contents }
}

/// A reply of the other entity completes the first open transaction with its
/// ID, handing the reply on; with none open it is rejected with reason 3
/// (transaction not open) and the given message type.
pub open spec fn completes_or_rejects(
    state: SelectionState,
    outbox: Seq<Transaction>,
    lock_acquired: bool,
    p: PrimitiveMessageV,
    m: HsmsMessageV,
    message_type: u8,
) -> bool {
    &&& forall|j: int| first_match(outbox, m.id, j) ==> receive_spec(state, outbox, lock_acquired, p) == (
        state,
        ClientActionV::Complete(outbox[j].key, Some(m)),
    )
    &&& no_match(outbox, m.id) ==> receive_spec(state, outbox, lock_acquired, p) == (
        state,
        ClientActionV::Send(msg(m.id, HsmsMessageContentsV::RejectRequest(message_type, 3))),
    )
}

/// What the client does with each kind of received message that converts:
/// primary data is delivered when selected, whatever its reply bit; replies
/// (data, select responses, linktest responses) complete the first open
/// transaction with their ID or are rejected with reason 3; data when not
/// selected is rejected with reason 4; a select request, when the selection
/// lock is free, selects with status 0 or is answered with status 1 (already
/// active); a linktest request is answered; a rejection ends the open
/// transaction with its ID without a reply; a separate request deselects.
pub proof fn lemma_receive(
    state: SelectionState,
    outbox: Seq<Transaction>,
    lock_acquired: bool,
    p: PrimitiveMessageV,
    m: HsmsMessageV,
)
    requires
        hsms_of(p) == Ok::<HsmsMessageV, RejectReason>(m),
    ensures
        m.contents matches HsmsMessageContentsV::DataMessage(d) ==> {
            if state == SelectionState::Selected {
                if d.function % 2 == 1 {
                    receive_spec(state, outbox, lock_acquired, p) == (state, ClientActionV::Deliver(m.id, d))
                } else {
                    completes_or_rejects(state, outbox, lock_acquired, p, m, 0)
                }
            } else {
                receive_spec(state, outbox, lock_acquired, p) == (
                    state,
                    ClientActionV::Send(msg(m.id, HsmsMessageContentsV::RejectRequest(0, 4))),
                )
            }
        },
        m.contents is SelectRequest ==> receive_spec(state, outbox, lock_acquired, p) == (
            if !lock_acquired {
                (state, ClientActionV::Ignore)
            } else if state == SelectionState::NotSelected {
                (SelectionState::Selected, ClientActionV::Send(msg(m.id, HsmsMessageContentsV::SelectResponse(0))))
            } else {
                (state, ClientActionV::Send(msg(m.id, HsmsMessageContentsV::SelectResponse(1))))
            }
        ),
        m.contents is SelectResponse ==> completes_or_rejects(state, outbox, lock_acquired, p, m, 0),
        m.contents is LinktestRequest ==> receive_spec(state, outbox, lock_acquired, p) == (
            state,
            ClientActionV::Send(msg(m.id, HsmsMessageContentsV::LinktestResponse)),
        ),
        m.contents is LinktestResponse ==> completes_or_rejects(state, outbox, lock_acquired, p, m, 5),
        m.contents is RejectRequest ==> {
            &&& forall|j: int| first_match(outbox, m.id, j) ==> receive_spec(state, outbox, lock_acquired, p) == (
                state,
                ClientActionV::Complete(outbox[j].key, None),
            )
            &&& no_match(outbox, m.id) ==> receive_spec(state, outbox, lock_acquired, p) == (
                state,
                ClientActionV::Ignore,
            )
        },
        m.contents is SeparateRequest ==> receive_spec(state, outbox, lock_acquired, p) == (
            SelectionState::NotSelected,
            ClientActionV::Ignore,
        ),
{
    lemma_key_is_first(outbox, m.id);
}

/// A received message that does not convert is rejected with its own session
/// ID and system bytes, the reason's code, and as message type its
/// presentation type when that is the reason, else its session type.
pub proof fn lemma_receive_refused(
    state: SelectionState,
    outbox: Seq<Transaction>,
    lock_acquired: bool,
    p: PrimitiveMessageV,
    reason: RejectReason,
)
    requires
        hsms_of(p) == Err::<HsmsMessageV, RejectReason>(reason),
    ensures
        receive_spec(state, outbox, lock_acquired, p) == (
            state,
            ClientActionV::Send(
                msg(
                    HsmsMessageID { session: p.header.session_id, system: p.header.system },
                    HsmsMessageContentsV::RejectRequest(
                        if reason == RejectReason::UnsupportedPresentationType {
                            p.header.presentation_type
                        } else {
                            p.header.session_type
                        },
                        reason.spec_code(),
                    ),
                ),
            ),
        ),
{
}

/// The header that each kind of message is sent with (SEMI E37 table 2):
/// the message's session ID (0xFFFF for linktest messages) and system bytes,
/// presentation type 0, and session types 0 to 7 and 9; control messages
/// have no text.
pub proof fn lemma_sent_headers(h: HsmsMessageV)
    ensures
        ({
            let hd = primitive_of(h).header;
            &&& hd.presentation_type == 0
            &&& hd.system == h.id.system
            &&& match h.contents {
                HsmsMessageContentsV::DataMessage(d) => hd.session_type == 0 && hd.session_id == h.id.session
                    && (d.stream < 128 ==> hd.byte_2 == (if d.w { d.stream + 128 } else { d.stream as int }))
                    && hd.byte_3 == d.function,
                HsmsMessageContentsV::SelectRequest => hd.session_type == 1 && hd.session_id == h.id.session
                    && hd.byte_2 == 0 && hd.byte_3 == 0,
                HsmsMessageContentsV::SelectResponse(s) => hd.session_type == 2 && hd.session_id == h.id.session
                    && hd.byte_2 == 0 && hd.byte_3 == s,
                HsmsMessageContentsV::DeselectRequest => hd.session_type == 3 && hd.session_id == h.id.session
                    && hd.byte_2 == 0 && hd.byte_3 == 0,
                HsmsMessageContentsV::DeselectResponse(s) => hd.session_type == 4 && hd.session_id == h.id.session
                    && hd.byte_2 == 0 && hd.byte_3 == s,
                HsmsMessageContentsV::LinktestRequest => hd.session_type == 5 && hd.session_id == 0xFFFF
                    && hd.byte_2 == 0 && hd.byte_3 == 0,
                HsmsMessageContentsV::LinktestResponse => hd.session_type == 6 && hd.session_id == 0xFFFF
                    && hd.byte_2 == 0 && hd.byte_3 == 0,
                HsmsMessageContentsV::RejectRequest(t, r) => hd.session_type == 7 && hd.session_id == h.id.session
                    && hd.byte_2 == t && hd.byte_3 == r,
                HsmsMessageContentsV::SeparateRequest => hd.session_type == 9 && hd.session_id == h.id.session
                    && hd.byte_2 == 0 && hd.byte_3 == 0,
            }
        }),
        !(h.contents is DataMessage) ==> primitive_of(h).text.len() == 0,
{
    if let HsmsMessageContentsV::DataMessage(d) = h.contents {
        let s = d.stream;
        if s < 128 {
            assert(s < 128 ==> (0x80u8 | s) == s + 128 && (0u8 | s) == s) by (bit_vector);
        }
    }
}

/// A received message that converts is sent again with the very header it
/// came with, and, unless it is a data message, with no text; its ID is its
/// header's session ID and system bytes.
pub proof fn lemma_received_header(p: PrimitiveMessageV)
    ensures
        hsms_of(p) matches Ok(m) ==> {
            &&& m.id == (HsmsMessageID { session: p.header.session_id, system: p.header.system })
            &&& primitive_of(m).header == p.header
            &&& !(m.contents is DataMessage) ==> p.text.len() == 0
        },
{
    if hsms_of(p) is Ok {
        lemma_byte_2_back(p.header.byte_2);
    }
}

/// Why received messages are refused: a presentation type other than 0, or
/// else a session type outside 0 to 7 and 9; any other refusal is malformed
/// data.
pub proof fn lemma_refusals(p: PrimitiveMessageV)
    ensures
        p.header.presentation_type != 0 ==> contents_of(p) == Err::<HsmsMessageContentsV, RejectReason>(
            RejectReason::UnsupportedPresentationType,
        ),
        p.header.presentation_type == 0 && (p.header.session_type == 8 || p.header.session_type > 9)
            ==> contents_of(p) == Err::<HsmsMessageContentsV, RejectReason>(RejectReason::UnsupportedSessionType),
        p.header.presentation_type == 0 && p.header.session_type != 8 && p.header.session_type <= 9
            ==> (contents_of(p) matches Err(e) ==> e == RejectReason::MalformedData),
        p.header.presentation_type == 0 && p.header.session_type == 0 && p.text.len() == 0 ==> (contents_of(p)
            matches Ok(HsmsMessageContentsV::DataMessage(d)) && d.body is None && d.stream == stream_of(
            p.header.byte_2,
        ) && d.w == w_of(p.header.byte_2) && d.function == p.header.byte_3),
{
}

} // verus!
