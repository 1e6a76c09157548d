//! HSMS single selected-session mode (SEMI E37.1).
use vstd::prelude::*;

verus! {

/// A client of the single selected-session mode. It has no state or
/// operations of its own yet.
pub struct SingleSessionClient {}

} // verus!
