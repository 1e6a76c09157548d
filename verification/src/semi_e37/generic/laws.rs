//! What the generic services' conversions, receive procedure and data
//! procedure do, stated over their inputs and results.
use vstd::prelude::*;
use crate::hsms::{lemma_byte_2_back, stream_of, w_of};
use crate::secs_ii::MessageV as SecsMessageV;
use crate::semi_e37::generic::{
    contents_of, data_spec, end_selection, hsms_of, primitive_of, receive_spec, MessageContentsV, MessageID, MessageV,
    ProcedureError, ReceiveActionV, RejectReason, Selection, SelectionState,
};
use crate::semi_e37::primitive::MessageV as PrimitiveMessageV;

verus! {

/// A message with this ID and contents.
pub open spec fn msg(id: MessageID, contents: MessageContentsV) -> MessageV {
    MessageV { id, contents }
}

/// The outcome of the data procedure: a data reply is handed back to the
/// caller; a rejection fails it with permission denied and any other reply
/// with invalid data; without a reply it succeeds with nothing when none was
/// expected and otherwise drops the connection and fails as aborted.
pub proof fn lemma_data_outcome(reply_expected: bool, reply: Option<MessageV>)
    ensures
        match reply {
            Some(m) => match m.contents {
                MessageContentsV::DataMessage(d) => data_spec(reply_expected, reply) == (
                    false,
                    Ok::<Option<SecsMessageV>, ProcedureError>(Some(d)),
                ),
                MessageContentsV::RejectRequest(_, _) => data_spec(reply_expected, reply) == (
                    false,
                    Err::<Option<SecsMessageV>, ProcedureError>(ProcedureError::PermissionDenied),
                ),
                _ => data_spec(reply_expected, reply) == (
                    false,
                    Err::<Option<SecsMessageV>, ProcedureError>(ProcedureError::InvalidData),
                ),
            },
            None => data_spec(reply_expected, reply) == if reply_expected {
                (true, Err::<Option<SecsMessageV>, ProcedureError>(ProcedureError::ConnectionAborted))
            } else {
                (false, Ok::<Option<SecsMessageV>, ProcedureError>(None))
            },
        },
{
}

/// A reply of the other entity completes the transaction this client opened
/// with its ID, handing the reply on; with none open it is rejected with
/// message type 0 and reason 3 (transaction not open).
pub open spec fn completes_or_rejects(
    selection: Selection,
    open: Seq<MessageID>,
    lock_acquired: bool,
    p: PrimitiveMessageV,
    m: MessageV,
) -> bool {
    receive_spec(selection, open, lock_acquired, p) == if open.contains(m.id) {
        ReceiveActionV::Complete(m)
    } else {
        ReceiveActionV::Transmit(msg(m.id, MessageContentsV::RejectRequest(0, 3)))
    }
}

/// What the receive procedure does with each kind of received message that
/// converts: primary data is delivered when selected, whatever its reply
/// bit; data replies and all responses and rejections complete the open
/// transaction with their ID or are rejected with reason 3; data when not
/// selected is rejected with reason 4; a select request, when the selection
/// lock is free, goes to the select callback; a deselect request, when the
/// lock is free, goes to the deselect callback if some selection is active
/// and is otherwise answered with status 1 (not established); a linktest
/// request is answered; a separate request goes to the separate callback if
/// some selection is active.
pub proof fn lemma_receive(
    selection: Selection,
    open: Seq<MessageID>,
    lock_acquired: bool,
    p: PrimitiveMessageV,
    m: MessageV,
)
    requires
        hsms_of(p) == Ok::<MessageV, RejectReason>(m),
    ensures
        m.contents matches MessageContentsV::DataMessage(d) ==> {
            if selection.state == SelectionState::Selected {
                if d.function % 2 == 1 {
                    receive_spec(selection, open, lock_acquired, p) == ReceiveActionV::Deliver(m.id, d)
                } else {
                    completes_or_rejects(selection, open, lock_acquired, p, m)
                }
            } else {
                receive_spec(selection, open, lock_acquired, p) == ReceiveActionV::Transmit(
                    msg(m.id, MessageContentsV::RejectRequest(0, 4)),
                )
            }
        },
        m.contents is SelectRequest ==> receive_spec(selection, open, lock_acquired, p) == if lock_acquired {
            ReceiveActionV::ConsultSelect(m.id)
        } else {
            ReceiveActionV::Ignore
        },
        m.contents is DeselectRequest ==> receive_spec(selection, open, lock_acquired, p) == if !lock_acquired {
            ReceiveActionV::Ignore
        } else if selection.count > 0 {
            ReceiveActionV::ConsultDeselect(m.id)
        } else {
            ReceiveActionV::Transmit(msg(m.id, MessageContentsV::DeselectResponse(1)))
        },
        m.contents is LinktestRequest ==> receive_spec(selection, open, lock_acquired, p)
            == ReceiveActionV::Transmit(msg(m.id, MessageContentsV::LinktestResponse)),
        m.contents is SeparateRequest ==> receive_spec(selection, open, lock_acquired, p) == if selection.count
            > 0 {
            ReceiveActionV::ConsultSeparate(m.id)
        } else {
            ReceiveActionV::Ignore
        },
        m.contents is SelectResponse || m.contents is DeselectResponse || m.contents is LinktestResponse
            || m.contents is RejectRequest ==> completes_or_rejects(selection, open, lock_acquired, p, m),
{
}

/// A received message that does not convert is rejected with its own session
/// ID and system bytes, the reason's code, and as message type its
/// presentation type when that is the reason, else its session type.
pub proof fn lemma_receive_refused(
    selection: Selection,
    open: Seq<MessageID>,
    lock_acquired: bool,
    p: PrimitiveMessageV,
    reason: RejectReason,
)
    requires
        hsms_of(p) == Err::<MessageV, RejectReason>(reason),
    ensures
        receive_spec(selection, open, lock_acquired, p) == ReceiveActionV::Transmit(
            msg(
                MessageID { session: p.header.session_id, system: p.header.system },
                MessageContentsV::RejectRequest(
                    if reason == RejectReason::UnsupportedPresentationType {
                        p.header.presentation_type
                    } else {
                        p.header.session_type
                    },
                    reason.spec_code(),
                ),
            ),
        ),
{
}

/// The header that each kind of message is sent with (SEMI E37 table 2):
/// the message's session ID (0xFFFF for linktest messages) and system bytes,
/// presentation type 0, and session types 0 to 7 and 9; control messages
/// have no text.
pub proof fn lemma_sent_headers(h: MessageV)
    ensures
        ({
            let hd = primitive_of(h).header;
            &&& hd.presentation_type == 0
            &&& hd.system == h.id.system
            &&& match h.contents {
                MessageContentsV::DataMessage(d) => hd.session_type == 0 && hd.session_id == h.id.session
                    && (d.stream < 128 ==> hd.byte_2 == (if d.w { d.stream + 128 } else { d.stream as int }))
                    && hd.byte_3 == d.function,
                MessageContentsV::SelectRequest => hd.session_type == 1 && hd.session_id == h.id.session
                    && hd.byte_2 == 0 && hd.byte_3 == 0,
                MessageContentsV::SelectResponse(s) => hd.session_type == 2 && hd.session_id == h.id.session
                    && hd.byte_2 == 0 && hd.byte_3 == s,
                MessageContentsV::DeselectRequest => hd.session_type == 3 && hd.session_id == h.id.session
                    && hd.byte_2 == 0 && hd.byte_3 == 0,
                MessageContentsV::DeselectResponse(s) => hd.session_type == 4 && hd.session_id == h.id.session
                    && hd.byte_2 == 0 && hd.byte_3 == s,
                MessageContentsV::LinktestRequest => hd.session_type == 5 && hd.session_id == 0xFFFF
                    && hd.byte_2 == 0 && hd.byte_3 == 0,
                MessageContentsV::LinktestResponse => hd.session_type == 6 && hd.session_id == 0xFFFF
                    && hd.byte_2 == 0 && hd.byte_3 == 0,
                MessageContentsV::RejectRequest(t, r) => hd.session_type == 7 && hd.session_id == h.id.session
                    && hd.byte_2 == t && hd.byte_3 == r,
                MessageContentsV::SeparateRequest => hd.session_type == 9 && hd.session_id == h.id.session
                    && hd.byte_2 == 0 && hd.byte_3 == 0,
            }
        }),
        !(h.contents is DataMessage) ==> primitive_of(h).text.len() == 0,
{
    if let MessageContentsV::DataMessage(d) = h.contents {
        let s = d.stream;
        if s < 128 {
            assert(s < 128 ==> (0x80u8 | s) == s + 128 && (0u8 | s) == s) by (bit_vector);
        }
    }
}

/// A received message that converts is sent again with the very header it
/// came with, and, unless it is a data message, with no text; its ID is its
/// header's session ID and system bytes.
pub proof fn lemma_received_header(p: PrimitiveMessageV)
    ensures
        hsms_of(p) matches Ok(m) ==> {
            &&& m.id == (MessageID { session: p.header.session_id, system: p.header.system })
            &&& primitive_of(m).header == p.header
            &&& !(m.contents is DataMessage) ==> p.text.len() == 0
        },
{
    if hsms_of(p) is Ok {
        lemma_byte_2_back(p.header.byte_2);
    }
}

/// Why received messages are refused: a presentation type other than 0, or
/// else a session type outside 0 to 7 and 9; any other refusal is malformed
/// data.
pub proof fn lemma_refusals(p: PrimitiveMessageV)
    ensures
        p.header.presentation_type != 0 ==> contents_of(p) == Err::<MessageContentsV, RejectReason>(
            RejectReason::UnsupportedPresentationType,
        ),
        p.header.presentation_type == 0 && (p.header.session_type == 8 || p.header.session_type > 9)
            ==> contents_of(p) == Err::<MessageContentsV, RejectReason>(RejectReason::UnsupportedSessionType),
        p.header.presentation_type == 0 && p.header.session_type != 8 && p.header.session_type <= 9
            ==> (contents_of(p) matches Err(e) ==> e == RejectReason::MalformedData),
        p.header.presentation_type == 0 && p.header.session_type == 0 && p.text.len() == 0 ==> (contents_of(p)
            matches Ok(MessageContentsV::DataMessage(d)) && d.body is None && d.stream == stream_of(
            p.header.byte_2,
        ) && d.w == w_of(p.header.byte_2) && d.function == p.header.byte_3),
{
}

/// Ending one of several selections leaves the client selected with one
/// fewer; ending the last one leaves it not selected with none.
pub proof fn lemma_end_selection(selection: Selection)
    requires
        selection.inv(),
        selection.count > 0,
    ensures
        end_selection(selection).count == selection.count - 1,
        end_selection(selection).state == (if selection.count == 1 {
            SelectionState::NotSelected
        } else {
            SelectionState::Selected
        }),
        end_selection(selection).inv(),
{
}

} // verus!
