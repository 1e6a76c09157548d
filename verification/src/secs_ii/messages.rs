//! Specific messages (SEMI E5 section 10) and their conversions to and from
//! generic messages.
use vstd::prelude::*;
use crate::secs_ii::{DataItem, Error, ItemV, Message, MessageV};

pub mod s1;

verus! {

/// The error, if any, of a message whose stream, function or reply bit
/// differs from the given ones; they are checked in that order.
pub open spec fn header_result(m: MessageV, stream: u8, function: u8, w: bool) -> Result<(), Error> {
    if m.stream != stream {
        Err(Error::WrongStream)
    } else if m.function != function {
        Err(Error::WrongFunction)
    } else if m.w != w {
        Err(Error::WrongReply)
    } else {
        Ok(())
    }
}

/// Checks the stream, function and reply bit of a message.
pub fn check_header(m: &Message, stream: u8, function: u8, w: bool) -> (r: Result<(), Error>)
    ensures
        r == header_result(m@, stream, function, w),
{
    if m.stream != stream {
        Err(Error::WrongStream)
    } else if m.function != function {
        Err(Error::WrongFunction)
    } else if m.w != w {
        Err(Error::WrongReply)
    } else {
        Ok(())
    }
}

/// What converting `m` into a header-only message gives: the header error,
/// else success exactly when there is no body.
pub open spec fn header_only_conversion(m: MessageV, stream: u8, function: u8, w: bool, ok: bool, err: Option<Error>) -> bool {
    match header_result(m, stream, function, w) {
        Err(e) => !ok && err == Some(e),
        Ok(_) => match m.body {
            None => ok,
            Some(_) => !ok && err == Some(Error::WrongFormat),
        },
    }
}

/// What converting `m` into a message whose body is a value of type `T`
/// gives: the header error, else a value whose item is the body, exactly
/// when the body converts.
pub open spec fn data_conversion<T: DataItem>(m: MessageV, stream: u8, function: u8, w: bool, r: Result<T, Error>) -> bool {
    match header_result(m, stream, function, w) {
        Err(e) => r matches Err(e2) && e2 == e,
        Ok(_) => match m.body {
            None => r matches Err(e2) && e2 == Error::WrongFormat,
            Some(item) => match r {
                Ok(x) => T::accepts(item) && x.item_of() == item,
                Err(e2) => !T::accepts(item) && e2 == Error::WrongFormat,
            },
        },
    }
}

/// What converting `m` into a message whose body is any item gives: the
/// header error, else the body, which must be present.
pub open spec fn item_conversion(m: MessageV, stream: u8, function: u8, w: bool, r: Result<ItemV, Error>) -> bool {
    match header_result(m, stream, function, w) {
        Err(e) => r == Err::<ItemV, Error>(e),
        Ok(_) => match m.body {
            None => r == Err::<ItemV, Error>(Error::WrongFormat),
            Some(item) => r == Ok::<ItemV, Error>(item),
        },
    }
}

/// The header of a message is checked stream first, then function, then
/// reply bit; a match on all three passes.
pub proof fn lemma_header_errors(m: MessageV, stream: u8, function: u8, w: bool)
    ensures
        m.stream != stream ==> header_result(m, stream, function, w) == Err::<(), Error>(Error::WrongStream),
        m.stream == stream && m.function != function ==> header_result(m, stream, function, w) == Err::<
            (),
            Error,
        >(Error::WrongFunction),
        m.stream == stream && m.function == function && m.w != w ==> header_result(m, stream, function, w)
            == Err::<(), Error>(Error::WrongReply),
        m.stream == stream && m.function == function && m.w == w ==> header_result(m, stream, function, w)
            == Ok::<(), Error>(()),
{
}

} // verus!
