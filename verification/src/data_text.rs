//! The text of an HSMS data message: the encoding of the SECS-II message
//! body, empty when there is none.
use vstd::prelude::*;
use crate::secs_ii::{Item, ItemV};
use crate::secs_ii::codec::{decode, encode, lemma_decode_encode, lemma_decode_wf, lemma_encode_len, wf};
use crate::secs_ii::item_bytes::{decode_item, encode_item};

verus! {

/// The text that carries a message body.
pub open spec fn text_of(body: Option<ItemV>) -> Seq<u8> {
    match body {
        Some(item) => encode(item),
        None => Seq::empty(),
    }
}

/// The message body that a text carries: none for an empty text, else the
/// one item it encodes; `None` if it encodes no item exactly.
pub open spec fn body_of(text: Seq<u8>) -> Option<Option<ItemV>> {
    if text.len() == 0 {
        Some(None)
    } else {
        match decode(text) {
            Some(item) => Some(Some(item)),
            None => None,
        }
    }
}

/// The value of an optional item.
pub open spec fn body_view(body: Option<Item>) -> Option<ItemV> {
    match body {
        Some(item) => Some(item@),
        None => None,
    }
}

/// The text that carries a message body.
pub fn text_bytes(body: Option<Item>) -> (r: Vec<u8>)
    requires
        body matches Some(item) ==> wf(item@),
    ensures
        r@ == text_of(body_view(body)),
{
    let mut out: Vec<u8> = Vec::new();
    match body {
        Some(item) => {
            encode_item(&item, &mut out);
            assert(out@ =~= encode(item@));
        },
        None => {},
    }
    out
}

/// The message body that a text carries, if it is empty or one item.
pub fn text_body(text: Vec<u8>) -> (r: Option<Option<Item>>)
    ensures
        match r {
            Some(body) => body_of(text@) == Some(body_view(body)),
            None => body_of(text@) is None,
        },
{
    if text.len() == 0 {
        Some(None)
    } else {
        match decode_item(&text) {
            Some(item) => Some(Some(item)),
            None => None,
        }
    }
}

/// The body that a text carries is the body it was made from.
pub proof fn lemma_body_roundtrip(body: Option<ItemV>)
    requires
        body matches Some(item) ==> wf(item),
    ensures
        body_of(text_of(body)) == Some(body),
{
    match body {
        Some(item) => {
            lemma_decode_encode(item);
            lemma_encode_len(item);
        },
        None => {},
    }
}

/// A body read from a text has an encoding.
pub proof fn lemma_body_wf(text: Seq<u8>)
    ensures
        body_of(text) matches Some(Some(item)) ==> wf(item),
{
    lemma_decode_wf(text);
}

} // verus!
