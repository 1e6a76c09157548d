//! Single selected-session services (HSMS-SS, SEMI E37.1): the procedure
//! callbacks of a single-session client.
use vstd::prelude::*;
use crate::semi_e37::generic::{DeselectStatus, SelectStatus};

pub use crate::semi_e37::primitive::ConnectionMode;
pub use crate::semi_e37::generic::{Message, MessageContents, MessageID, ParameterSettings, RejectReason};

verus! {

/// The only session ID of HSMS-SS.
pub const SESSION_ID: u16 = 0xFFFF;

/// How a passive single-session client answers a select request: only one
/// session may be selected, and only with session ID 0xFFFF.
pub fn passive_select(session_id: u16, selection_count: u16) -> (r: SelectStatus)
    ensures
        r == (if selection_count == 0 {
            if session_id == 0xFFFF {
                SelectStatus::Success
            } else {
                SelectStatus::NotReady
            }
        } else {
            SelectStatus::AlreadyActive
        }),
{
    if selection_count == 0 {
        if session_id == SESSION_ID {
            SelectStatus::Success
        } else {
            SelectStatus::NotReady
        }
    } else {
        SelectStatus::AlreadyActive
    }
}

/// How an active single-session client answers a select request: it does
/// not accept one.
pub fn active_select(session_id: u16, selection_count: u16) -> (r: SelectStatus)
    ensures
        r == SelectStatus::NotReady,
{
    SelectStatus::NotReady
}

/// How a single-session client answers a deselect request: the deselect
/// procedure is not used in HSMS-SS.
pub fn deselect(session_id: u16, selection_count: u16) -> (r: DeselectStatus)
    ensures
        r == DeselectStatus::Busy,
{
    DeselectStatus::Busy
}

/// Whether a single-session client ends its selection on a separate
/// request: only for session ID 0xFFFF.
pub fn separate(session_id: u16, selection_count: u16) -> (r: bool)
    ensures
        r == (session_id == 0xFFFF),
{
    session_id == SESSION_ID
}

/// The ID of the select request that an active single-session client sends
/// when it connects.
pub fn connect_select_id() -> (r: MessageID)
    ensures
        r == (MessageID { session: 0xFFFF, system: 0 }),
{
    MessageID { session: SESSION_ID, system: 0 }
}

} // verus!
