//! Stream 1: equipment status (SEMI E5 section 10.5).
use vstd::prelude::*;
use crate::secs_ii::{DataItem, Error, Item, ItemV, Message, MessageV, VecList};
use crate::secs_ii::items::{
    CommAck, ModelName, OffLineAcknowledge, OnLineAcknowledge, SoftwareRevision, StatusFormCode,
    StatusVariableID, StatusVariableName, StatusVariableValue, Units,
};
use crate::secs_ii::messages::{
    check_header, data_conversion, header_only_conversion, item_conversion,
};

verus! {

/// S1F1: Are You There Request (R). Header only; reply required.
#[derive(Debug, Clone, Copy, PartialEq, Eq, Structural)]
pub struct AreYouThere;

impl AreYouThere {
    /// The generic message: stream 1, function 1, no body.
    pub fn into_message(self) -> (r: Message)
        ensures
            r@ == (MessageV { stream: 1, function: 1, w: true, body: None }),
    {
        Message { stream: 1, function: 1, w: true, body: None }
    }

    /// The message, if `m` is this header-only message.
    pub fn try_from_message(m: Message) -> (r: Result<Self, Error>)
        ensures
            header_only_conversion(
                m@,
                1,
                1,
                true,
                r is Ok,
                match r {
                    Ok(_) => None,
                    Err(e) => Some(e),
                },
            ),
    {
        match check_header(&m, 1, 1, true) {
            Err(e) => Err(e),
            Ok(()) => match m.body {
                None => Ok(AreYouThere),
                Some(_) => Err(Error::WrongFormat),
            },
        }
    }
}

/// S1F2: On Line Data (D), host to equipment: an empty list. Reply never.
pub struct HostOnLineData(pub ());

impl HostOnLineData {
    /// The generic message: stream 1, function 2, with the item of the data.
    pub fn into_message(self) -> (r: Message)
        ensures
            r@ == (MessageV { stream: 1, function: 2, w: false, body: Some(self.0.item_of()) }),
            <() as DataItem>::accepts(self.0.item_of()),
    {
        Message { stream: 1, function: 2, w: false, body: Some(self.0.into_item()) }
    }

    /// The message, if `m` is this message with a body that converts.
    pub fn try_from_message(m: Message) -> (r: Result<Self, Error>)
        ensures
            data_conversion::<()>(
                m@,
                1,
                2,
                false,
                match r {
                    Ok(x) => Ok(x.0),
                    Err(e) => Err(e),
                },
            ),
    {
        match check_header(&m, 1, 2, false) {
            Err(e) => Err(e),
            Ok(()) => match m.body {
                Some(item) => match <() as DataItem>::try_from_item(item) {
                    Ok(x) => Ok(HostOnLineData(x)),
                    Err(e) => Err(e),
                },
                None => Err(Error::WrongFormat),
            },
        }
    }
}

/// S1F2: On Line Data (D), equipment to host: a list of MDLN and SOFTREV. Reply never.
pub struct EquipmentOnLineData(pub (ModelName, SoftwareRevision));

impl EquipmentOnLineData {
    /// The generic message: stream 1, function 2, with the item of the data.
    pub fn into_message(self) -> (r: Message)
        ensures
            r@ == (MessageV { stream: 1, function: 2, w: false, body: Some(self.0.item_of()) }),
            <(ModelName, SoftwareRevision) as DataItem>::accepts(self.0.item_of()),
    {
        Message { stream: 1, function: 2, w: false, body: Some(self.0.into_item()) }
    }

    /// The message, if `m` is this message with a body that converts.
    pub fn try_from_message(m: Message) -> (r: Result<Self, Error>)
        ensures
            data_conversion::<(ModelName, SoftwareRevision)>(
                m@,
                1,
                2,
                false,
                match r {
                    Ok(x) => Ok(x.0),
                    Err(e) => Err(e),
                },
            ),
    {
        match check_header(&m, 1, 2, false) {
            Err(e) => Err(e),
            Ok(()) => match m.body {
                Some(item) => match <(ModelName, SoftwareRevision) as DataItem>::try_from_item(item) {
                    Ok(x) => Ok(EquipmentOnLineData(x)),
                    Err(e) => Err(e),
                },
                None => Err(Error::WrongFormat),
            },
        }
    }
}

/// S1F3: Selected Equipment Status Request (SSR): a list of SVIDs; an empty list asks for all. Reply required.
pub struct SelectedEquipmentStatusRequest(pub VecList<StatusVariableID>);

impl SelectedEquipmentStatusRequest {
    /// The generic message: stream 1, function 3, with the item of the data.
    pub fn into_message(self) -> (r: Message)
        ensures
            r@ == (MessageV { stream: 1, function: 3, w: true, body: Some(self.0.item_of()) }),
            <VecList<StatusVariableID> as DataItem>::accepts(self.0.item_of()),
    {
        Message { stream: 1, function: 3, w: true, body: Some(self.0.into_item()) }
    }

    /// The message, if `m` is this message with a body that converts.
    pub fn try_from_message(m: Message) -> (r: Result<Self, Error>)
        ensures
            data_conversion::<VecList<StatusVariableID>>(
                m@,
                1,
                3,
                true,
                match r {
                    Ok(x) => Ok(x.0),
                    Err(e) => Err(e),
                },
            ),
    {
        match check_header(&m, 1, 3, true) {
            Err(e) => Err(e),
            Ok(()) => match m.body {
                Some(item) => match <VecList<StatusVariableID> as DataItem>::try_from_item(item) {
                    Ok(x) => Ok(SelectedEquipmentStatusRequest(x)),
                    Err(e) => Err(e),
                },
                None => Err(Error::WrongFormat),
            },
        }
    }
}

/// S1F4: Selected Equipment Status Data (SSD): a list of SVs in the order requested. Reply never.
pub struct SelectedEquipmentStatusData(pub VecList<StatusVariableValue>);

impl SelectedEquipmentStatusData {
    /// The generic message: stream 1, function 4, with the item of the data.
    pub fn into_message(self) -> (r: Message)
        ensures
            r@ == (MessageV { stream: 1, function: 4, w: false, body: Some(self.0.item_of()) }),
            <VecList<StatusVariableValue> as DataItem>::accepts(self.0.item_of()),
    {
        Message { stream: 1, function: 4, w: false, body: Some(self.0.into_item()) }
    }

    /// The message, if `m` is this message with a body that converts.
    pub fn try_from_message(m: Message) -> (r: Result<Self, Error>)
        ensures
            data_conversion::<VecList<StatusVariableValue>>(
                m@,
                1,
                4,
                false,
                match r {
                    Ok(x) => Ok(x.0),
                    Err(e) => Err(e),
                },
            ),
    {
        match check_header(&m, 1, 4, false) {
            Err(e) => Err(e),
            Ok(()) => match m.body {
                Some(item) => match <VecList<StatusVariableValue> as DataItem>::try_from_item(item) {
                    Ok(x) => Ok(SelectedEquipmentStatusData(x)),
                    Err(e) => Err(e),
                },
                None => Err(Error::WrongFormat),
            },
        }
    }
}

/// S1F5: Formatted Status Request (FSR): an SFCD. Reply required.
pub struct FormattedStatusRequest(pub StatusFormCode);

impl FormattedStatusRequest {
    /// The generic message: stream 1, function 5, with the item of the data.
    pub fn into_message(self) -> (r: Message)
        ensures
            r@ == (MessageV { stream: 1, function: 5, w: true, body: Some(self.0.item_of()) }),
            <StatusFormCode as DataItem>::accepts(self.0.item_of()),
    {
        Message { stream: 1, function: 5, w: true, body: Some(self.0.into_item()) }
    }

    /// The message, if `m` is this message with a body that converts.
    pub fn try_from_message(m: Message) -> (r: Result<Self, Error>)
        ensures
            data_conversion::<StatusFormCode>(
                m@,
                1,
                5,
                true,
                match r {
                    Ok(x) => Ok(x.0),
                    Err(e) => Err(e),
                },
            ),
    {
        match check_header(&m, 1, 5, true) {
            Err(e) => Err(e),
            Ok(()) => match m.body {
                Some(item) => match <StatusFormCode as DataItem>::try_from_item(item) {
                    Ok(x) => Ok(FormattedStatusRequest(x)),
                    Err(e) => Err(e),
                },
                None => Err(Error::WrongFormat),
            },
        }
    }
}

/// S1F6: Formatted Status Data (FSD): an item structured by the status form. Reply never.
pub struct FormattedStatusData(pub Item);

impl FormattedStatusData {
    /// The generic message: stream 1, function 6, with the item as body.
    pub fn into_message(self) -> (r: Message)
        ensures
            r@ == (MessageV { stream: 1, function: 6, w: false, body: Some(self.0@) }),
    {
        Message { stream: 1, function: 6, w: false, body: Some(self.0) }
    }

    /// The message, if `m` is this message with a body.
    pub fn try_from_message(m: Message) -> (r: Result<Self, Error>)
        ensures
            item_conversion(
                m@,
                1,
                6,
                false,
                match r {
                    Ok(x) => Ok(x.0@),
                    Err(e) => Err(e),
                },
            ),
    {
        match check_header(&m, 1, 6, false) {
            Err(e) => Err(e),
            Ok(()) => match m.body {
                Some(item) => Ok(FormattedStatusData(item)),
                None => Err(Error::WrongFormat),
            },
        }
    }
}

/// S1F7: Fixed Form Request (FFR): an SFCD. Reply required.
pub struct FixedFormRequest(pub StatusFormCode);

impl FixedFormRequest {
    /// The generic message: stream 1, function 7, with the item of the data.
    pub fn into_message(self) -> (r: Message)
        ensures
            r@ == (MessageV { stream: 1, function: 7, w: true, body: Some(self.0.item_of()) }),
            <StatusFormCode as DataItem>::accepts(self.0.item_of()),
    {
        Message { stream: 1, function: 7, w: true, body: Some(self.0.into_item()) }
    }

    /// The message, if `m` is this message with a body that converts.
    pub fn try_from_message(m: Message) -> (r: Result<Self, Error>)
        ensures
            data_conversion::<StatusFormCode>(
                m@,
                1,
                7,
                true,
                match r {
                    Ok(x) => Ok(x.0),
                    Err(e) => Err(e),
                },
            ),
    {
        match check_header(&m, 1, 7, true) {
            Err(e) => Err(e),
            Ok(()) => match m.body {
                Some(item) => match <StatusFormCode as DataItem>::try_from_item(item) {
                    Ok(x) => Ok(FixedFormRequest(x)),
                    Err(e) => Err(e),
                },
                None => Err(Error::WrongFormat),
            },
        }
    }
}

/// S1F8: Fixed Form Data (FFD): the form of an S1F6 message. Reply never.
pub struct FixedFormData(pub Item);

impl FixedFormData {
    /// The generic message: stream 1, function 8, with the item as body.
    pub fn into_message(self) -> (r: Message)
        ensures
            r@ == (MessageV { stream: 1, function: 8, w: false, body: Some(self.0@) }),
    {
        Message { stream: 1, function: 8, w: false, body: Some(self.0) }
    }

    /// The message, if `m` is this message with a body.
    pub fn try_from_message(m: Message) -> (r: Result<Self, Error>)
        ensures
            item_conversion(
                m@,
                1,
                8,
                false,
                match r {
                    Ok(x) => Ok(x.0@),
                    Err(e) => Err(e),
                },
            ),
    {
        match check_header(&m, 1, 8, false) {
            Err(e) => Err(e),
            Ok(()) => match m.body {
                Some(item) => Ok(FixedFormData(item)),
                None => Err(Error::WrongFormat),
            },
        }
    }
}

/// S1F9: Material Transfer Status Request (TSR). Header only; reply required.
#[derive(Debug, Clone, Copy, PartialEq, Eq, Structural)]
pub struct MaterialTransferStatusRequest;

impl MaterialTransferStatusRequest {
    /// The generic message: stream 1, function 9, no body.
    pub fn into_message(self) -> (r: Message)
        ensures
            r@ == (MessageV { stream: 1, function: 9, w: true, body: None }),
    {
        Message { stream: 1, function: 9, w: true, body: None }
    }

    /// The message, if `m` is this header-only message.
    pub fn try_from_message(m: Message) -> (r: Result<Self, Error>)
        ensures
            header_only_conversion(
                m@,
                1,
                9,
                true,
                r is Ok,
                match r {
                    Ok(_) => None,
                    Err(e) => Some(e),
                },
            ),
    {
        match check_header(&m, 1, 9, true) {
            Err(e) => Err(e),
            Ok(()) => match m.body {
                None => Ok(MaterialTransferStatusRequest),
                Some(_) => Err(Error::WrongFormat),
            },
        }
    }
}

/// S1F10: Material Transfer Status Data (TSD): a list of the TSIPs and a list
/// of the TSOPs. Reply never. Its conversions are not defined.
pub struct MaterialTransferStatusData;

/// S1F11: Status Variable Namelist Request (SVNR): a list of SVIDs; an empty list asks for all. Reply required.
pub struct StatusVariableNamelistRequest(pub VecList<StatusVariableID>);

impl StatusVariableNamelistRequest {
    /// The generic message: stream 1, function 11, with the item of the data.
    pub fn into_message(self) -> (r: Message)
        ensures
            r@ == (MessageV { stream: 1, function: 11, w: true, body: Some(self.0.item_of()) }),
            <VecList<StatusVariableID> as DataItem>::accepts(self.0.item_of()),
    {
        Message { stream: 1, function: 11, w: true, body: Some(self.0.into_item()) }
    }

    /// The message, if `m` is this message with a body that converts.
    pub fn try_from_message(m: Message) -> (r: Result<Self, Error>)
        ensures
            data_conversion::<VecList<StatusVariableID>>(
                m@,
                1,
                11,
                true,
                match r {
                    Ok(x) => Ok(x.0),
                    Err(e) => Err(e),
                },
            ),
    {
        match check_header(&m, 1, 11, true) {
            Err(e) => Err(e),
            Ok(()) => match m.body {
                Some(item) => match <VecList<StatusVariableID> as DataItem>::try_from_item(item) {
                    Ok(x) => Ok(StatusVariableNamelistRequest(x)),
                    Err(e) => Err(e),
                },
                None => Err(Error::WrongFormat),
            },
        }
    }
}

/// S1F12: Status Variable Namelist Reply (SVNRR): a list of SVID, SVNAME and UNITS triples. Reply never.
pub struct StatusVariableNamelistReply(pub VecList<(StatusVariableID, StatusVariableName, Units)>);

impl StatusVariableNamelistReply {
    /// The generic message: stream 1, function 12, with the item of the data.
    pub fn into_message(self) -> (r: Message)
        ensures
            r@ == (MessageV { stream: 1, function: 12, w: false, body: Some(self.0.item_of()) }),
            <VecList<(StatusVariableID, StatusVariableName, Units)> as DataItem>::accepts(self.0.item_of()),
    {
        Message { stream: 1, function: 12, w: false, body: Some(self.0.into_item()) }
    }

    /// The message, if `m` is this message with a body that converts.
    pub fn try_from_message(m: Message) -> (r: Result<Self, Error>)
        ensures
            data_conversion::<VecList<(StatusVariableID, StatusVariableName, Units)>>(
                m@,
                1,
                12,
                false,
                match r {
                    Ok(x) => Ok(x.0),
                    Err(e) => Err(e),
                },
            ),
    {
        match check_header(&m, 1, 12, false) {
            Err(e) => Err(e),
            Ok(()) => match m.body {
                Some(item) => match <VecList<(StatusVariableID, StatusVariableName, Units)> as DataItem>::try_from_item(item) {
                    Ok(x) => Ok(StatusVariableNamelistReply(x)),
                    Err(e) => Err(e),
                },
                None => Err(Error::WrongFormat),
            },
        }
    }
}

/// S1F13: Establish Communications Request (CR), host to equipment: an empty list. Reply required.
pub struct HostCR(pub ());

impl HostCR {
    /// The generic message: stream 1, function 13, with the item of the data.
    pub fn into_message(self) -> (r: Message)
        ensures
            r@ == (MessageV { stream: 1, function: 13, w: true, body: Some(self.0.item_of()) }),
            <() as DataItem>::accepts(self.0.item_of()),
    {
        Message { stream: 1, function: 13, w: true, body: Some(self.0.into_item()) }
    }

    /// The message, if `m` is this message with a body that converts.
    pub fn try_from_message(m: Message) -> (r: Result<Self, Error>)
        ensures
            data_conversion::<()>(
                m@,
                1,
                13,
                true,
                match r {
                    Ok(x) => Ok(x.0),
                    Err(e) => Err(e),
                },
            ),
    {
        match check_header(&m, 1, 13, true) {
            Err(e) => Err(e),
            Ok(()) => match m.body {
                Some(item) => match <() as DataItem>::try_from_item(item) {
                    Ok(x) => Ok(HostCR(x)),
                    Err(e) => Err(e),
                },
                None => Err(Error::WrongFormat),
            },
        }
    }
}

/// S1F14: Establish Communications Request Acknowledge (CRA): COMMACK, then a list of MDLN and SOFTREV. Reply never.
pub struct EquipmentCRA(pub (CommAck, (ModelName, SoftwareRevision)));

impl EquipmentCRA {
    /// The generic message: stream 1, function 14, with the item of the data.
    pub fn into_message(self) -> (r: Message)
        ensures
            r@ == (MessageV { stream: 1, function: 14, w: false, body: Some(self.0.item_of()) }),
            <(CommAck, (ModelName, SoftwareRevision)) as DataItem>::accepts(self.0.item_of()),
    {
        Message { stream: 1, function: 14, w: false, body: Some(self.0.into_item()) }
    }

    /// The message, if `m` is this message with a body that converts.
    pub fn try_from_message(m: Message) -> (r: Result<Self, Error>)
        ensures
            data_conversion::<(CommAck, (ModelName, SoftwareRevision))>(
                m@,
                1,
                14,
                false,
                match r {
                    Ok(x) => Ok(x.0),
                    Err(e) => Err(e),
                },
            ),
    {
        match check_header(&m, 1, 14, false) {
            Err(e) => Err(e),
            Ok(()) => match m.body {
                Some(item) => match <(CommAck, (ModelName, SoftwareRevision)) as DataItem>::try_from_item(item) {
                    Ok(x) => Ok(EquipmentCRA(x)),
                    Err(e) => Err(e),
                },
                None => Err(Error::WrongFormat),
            },
        }
    }
}

/// S1F15: Request OFF-LINE (ROFL). Header only; reply required.
#[derive(Debug, Clone, Copy, PartialEq, Eq, Structural)]
pub struct RequestOffLine;

impl RequestOffLine {
    /// The generic message: stream 1, function 15, no body.
    pub fn into_message(self) -> (r: Message)
        ensures
            r@ == (MessageV { stream: 1, function: 15, w: true, body: None }),
    {
        Message { stream: 1, function: 15, w: true, body: None }
    }

    /// The message, if `m` is this header-only message.
    pub fn try_from_message(m: Message) -> (r: Result<Self, Error>)
        ensures
            header_only_conversion(
                m@,
                1,
                15,
                true,
                r is Ok,
                match r {
                    Ok(_) => None,
                    Err(e) => Some(e),
                },
            ),
    {
        match check_header(&m, 1, 15, true) {
            Err(e) => Err(e),
            Ok(()) => match m.body {
                None => Ok(RequestOffLine),
                Some(_) => Err(Error::WrongFormat),
            },
        }
    }
}

/// S1F16: OFF-LINE Acknowledge (OFLA): an OFLACK. Reply never.
pub struct OffLineAck(pub OffLineAcknowledge);

impl OffLineAck {
    /// The generic message: stream 1, function 16, with the item of the data.
    pub fn into_message(self) -> (r: Message)
        ensures
            r@ == (MessageV { stream: 1, function: 16, w: false, body: Some(self.0.item_of()) }),
            <OffLineAcknowledge as DataItem>::accepts(self.0.item_of()),
    {
        Message { stream: 1, function: 16, w: false, body: Some(self.0.into_item()) }
    }

    /// The message, if `m` is this message with a body that converts.
    pub fn try_from_message(m: Message) -> (r: Result<Self, Error>)
        ensures
            data_conversion::<OffLineAcknowledge>(
                m@,
                1,
                16,
                false,
                match r {
                    Ok(x) => Ok(x.0),
                    Err(e) => Err(e),
                },
            ),
    {
        match check_header(&m, 1, 16, false) {
            Err(e) => Err(e),
            Ok(()) => match m.body {
                Some(item) => match <OffLineAcknowledge as DataItem>::try_from_item(item) {
                    Ok(x) => Ok(OffLineAck(x)),
                    Err(e) => Err(e),
                },
                None => Err(Error::WrongFormat),
            },
        }
    }
}

/// S1F17: Request ON-LINE (RONL). Header only; reply required.
#[derive(Debug, Clone, Copy, PartialEq, Eq, Structural)]
pub struct RequestOnLine;

impl RequestOnLine {
    /// The generic message: stream 1, function 17, no body.
    pub fn into_message(self) -> (r: Message)
        ensures
            r@ == (MessageV { stream: 1, function: 17, w: true, body: None }),
    {
        Message { stream: 1, function: 17, w: true, body: None }
    }

    /// The message, if `m` is this header-only message.
    pub fn try_from_message(m: Message) -> (r: Result<Self, Error>)
        ensures
            header_only_conversion(
                m@,
                1,
                17,
                true,
                r is Ok,
                match r {
                    Ok(_) => None,
                    Err(e) => Some(e),
                },
            ),
    {
        match check_header(&m, 1, 17, true) {
            Err(e) => Err(e),
            Ok(()) => match m.body {
                None => Ok(RequestOnLine),
                Some(_) => Err(Error::WrongFormat),
            },
        }
    }
}

/// S1F18: ON-LINE Acknowledge (ONLA): an ONLACK. Reply never.
pub struct OnLineAck(pub OnLineAcknowledge);

impl OnLineAck {
    /// The generic message: stream 1, function 18, with the item of the data.
    pub fn into_message(self) -> (r: Message)
        ensures
            r@ == (MessageV { stream: 1, function: 18, w: false, body: Some(self.0.item_of()) }),
            <OnLineAcknowledge as DataItem>::accepts(self.0.item_of()),
    {
        Message { stream: 1, function: 18, w: false, body: Some(self.0.into_item()) }
    }

    /// The message, if `m` is this message with a body that converts.
    pub fn try_from_message(m: Message) -> (r: Result<Self, Error>)
        ensures
            data_conversion::<OnLineAcknowledge>(
                m@,
                1,
                18,
                false,
                match r {
                    Ok(x) => Ok(x.0),
                    Err(e) => Err(e),
                },
            ),
    {
        match check_header(&m, 1, 18, false) {
            Err(e) => Err(e),
            Ok(()) => match m.body {
                Some(item) => match <OnLineAcknowledge as DataItem>::try_from_item(item) {
                    Ok(x) => Ok(OnLineAck(x)),
                    Err(e) => Err(e),
                },
                None => Err(Error::WrongFormat),
            },
        }
    }
}

} // verus!
