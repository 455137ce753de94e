use vstd::prelude::*;

verus! {

/// The one way a render fails: the target refused the text, or the events
/// broke the map protocol. It carries no message.
#[derive(Debug, Clone, Copy, PartialEq, Eq, Structural)]
pub struct Error;

} // verus!
