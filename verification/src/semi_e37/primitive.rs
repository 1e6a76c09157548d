//! Primitive services: messages as headers and text, and the framing of
//! headers.
use vstd::prelude::*;
use crate::secs_ii::codec::u32_of;
use crate::frame::{lemma_wire_read, wire_seq};
use crate::frame::{
    frame_bytes,
    header_bytes, header_seq, lemma_header_bytes, lemma_header_fields, read_session_id,
    read_system, session_id_of, system_of,
};

verus! {
/// The header of a message (SEMI E37 section 8.2).
#[derive(Debug, Clone, Copy, PartialEq, Eq, Structural)]
pub struct MessageHeader {
    pub session_id: u16,
    pub byte_2: u8,
    pub byte_3: u8,
    pub presentation_type: u8,
    pub session_type: u8,
    pub system: u32,
}

impl MessageHeader {
    /// The 10 bytes of the header.
    pub open spec fn spec_bytes(self) -> Seq<u8> {
        header_seq(
            self.session_id,
            self.byte_2,
            self.byte_3,
            self.presentation_type,
            self.session_type,
            self.system,
        )
    }

    /// The header that 10 bytes hold.
    pub open spec fn spec_from_bytes(b: Seq<u8>) -> MessageHeader {
        MessageHeader {
            session_id: session_id_of(b),
            byte_2: b[2],
            byte_3: b[3],
            presentation_type: b[4],
            session_type: b[5],
            system: system_of(b),
        }
    }

    /// The 10 bytes of the header.
    pub fn to_bytes(self) -> (r: [u8; 10])
        ensures
            r@ == self.spec_bytes(),
    {
        header_bytes(
            self.session_id,
            self.byte_2,
            self.byte_3,
            self.presentation_type,
            self.session_type,
            self.system,
        )
    }

    /// The header that 10 bytes hold.
    pub fn from_bytes(bytes: [u8; 10]) -> (r: Self)
        ensures
            r == Self::spec_from_bytes(bytes@),
    {
        MessageHeader {
            session_id: read_session_id(&bytes),
            byte_2: bytes[2],
            byte_3: bytes[3],
            presentation_type: bytes[4],
            session_type: bytes[5],
            system: read_system(&bytes),
        }
    }
}

impl From<MessageHeader> for [u8; 10] {
    /// The 10 bytes of the header.
    fn from(header: MessageHeader) -> (r: [u8; 10]) {
        header.to_bytes()
    }
}

impl vstd::std_specs::convert::FromSpecImpl<MessageHeader> for [u8; 10] {
    open spec fn obeys_from_spec() -> bool {
        true
    }

    open spec fn from_spec(header: MessageHeader) -> [u8; 10] {
        choose|b: [u8; 10]| b@ == header.spec_bytes()
    }
}

impl From<[u8; 10]> for MessageHeader {
    /// The header that 10 bytes hold.
    fn from(bytes: [u8; 10]) -> (r: MessageHeader) {
        MessageHeader::from_bytes(bytes)
    }
}

impl vstd::std_specs::convert::FromSpecImpl<[u8; 10]> for MessageHeader {
    open spec fn obeys_from_spec() -> bool {
        true
    }

    open spec fn from_spec(bytes: [u8; 10]) -> MessageHeader {
        MessageHeader::spec_from_bytes(bytes@)
    }
}

/// Reading the bytes of a header gives the header back.
pub proof fn lemma_header_roundtrip(h: MessageHeader)
    ensures
        MessageHeader::spec_from_bytes(h.spec_bytes()) == h,
{
    lemma_header_fields(
        h.session_id,
        h.byte_2,
        h.byte_3,
        h.presentation_type,
        h.session_type,
        h.system,
    );
}

/// Writing the header that 10 bytes hold gives the bytes back.
pub proof fn lemma_bytes_roundtrip(b: Seq<u8>)
    requires
        b.len() == 10,
    ensures
        MessageHeader::spec_from_bytes(b).spec_bytes() == b,
{
    lemma_header_bytes(b);
}

/// A message as it is transferred: a header and the message text.
#[derive(Debug)]
pub struct Message {
    pub header: MessageHeader,
    pub text: Vec<u8>,
}

/// The mathematical value of a [Message].
pub struct MessageV {
    pub header: MessageHeader,
    pub text: Seq<u8>,
}

impl View for Message {
    type V = MessageV;

    open spec fn view(&self) -> MessageV {
        MessageV { header: self.header, text: self.text@ }
    }
}

/// How a connection is established: by accepting one (passive) or by
/// initiating one (active).
#[derive(Debug, Clone, Copy, PartialEq, Eq, Structural)]
pub enum ConnectionMode {
    Passive,
    Active,
}

impl Default for ConnectionMode {
    /// The default mode: passive.
    fn default() -> (r: Self)
        ensures
            r == ConnectionMode::Passive,
    {
        ConnectionMode::Passive
    }
}

/// A request made of a primitive client.
#[derive(Debug, Clone, Copy, PartialEq, Eq, Structural)]
pub enum LinkRequest {
    Connect,
    Disconnect,
    Transmit,
}

/// Why a primitive client refuses a request.
#[derive(Debug, Clone, Copy, PartialEq, Eq, Structural)]
pub enum LinkRefusal {
    /// A connection is held already.
    AlreadyConnected,
    /// No connection is held.
    NotConnected,
}

/// Whether a primitive client takes a request in its connection state: it
/// connects only when not connected, and disconnects and transmits only
/// when connected.
pub fn link_check(connected: bool, request: LinkRequest) -> (r: Result<(), LinkRefusal>)
    ensures
        r == (match request {
            LinkRequest::Connect => if connected {
                Err::<(), LinkRefusal>(LinkRefusal::AlreadyConnected)
            } else {
                Ok::<(), LinkRefusal>(())
            },
            _ => if connected {
                Ok::<(), LinkRefusal>(())
            } else {
                Err::<(), LinkRefusal>(LinkRefusal::NotConnected)
            },
        }),
{
    match request {
        LinkRequest::Connect => if connected {
            Err(LinkRefusal::AlreadyConnected)
        } else {
            Ok(())
        },
        _ => if connected {
            Ok(())
        } else {
            Err(LinkRefusal::NotConnected)
        },
    }
}

/// The bytes that send a message: the length of header and text, the
/// header, then the text.
pub fn frame(message: &Message) -> (r: Vec<u8>)
    requires
        message.text.len() + 10 <= usize::MAX,
    ensures
        r@ == wire_seq(message.header.spec_bytes(), message.text@),
{
    frame_bytes(message.header.to_bytes(), &message.text)
}

/// Reading back what [frame] sends: the 4 length bytes give the number of
/// bytes that follow, at least the 10 of a header; the next 10 bytes hold the
/// header, and the rest is the text.
pub proof fn lemma_frame_read(m: MessageV)
    requires
        10 + m.text.len() < 0x1_0000_0000,
    ensures
        ({
            let w = wire_seq(m.header.spec_bytes(), m.text);
            &&& u32_of(w[0], w[1], w[2], w[3]) == 10 + m.text.len()
            &&& MessageHeader::spec_from_bytes(w.subrange(4, 14)) == m.header
            &&& w.skip(14) == m.text
        }),
{
    let h = m.header.spec_bytes();
    lemma_wire_read(h, m.text);
    let w = wire_seq(h, m.text);
    assert(w.subrange(4, 14) =~= h);
    assert(w.skip(14) =~= m.text);
    lemma_header_roundtrip(m.header);
}

} // verus!
