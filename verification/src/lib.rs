//! Verified encodings of the SEMI equipment-communication protocols:
//! SECS-II message content and HSMS message transfer.
use vstd::prelude::*;

pub mod secs_ii;
pub mod frame;
pub mod hsms;
pub mod data_text;
pub mod semi_e37;

verus! {

} // verus!
