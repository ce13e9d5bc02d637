//! Error signals of the bridge's data path.

use vstd::prelude::*;

verus! {

/// Signal returned on the data path when a buffer or a fill call is
/// not accepted.
#[derive(Clone, Copy, Debug, PartialEq, Eq, Structural)]
pub enum FlowError {
    /// Data arrived before the pad's format was negotiated.
    NotNegotiated,
    /// The buffer could not be read, the receiver was asked to produce
    /// outside its producing phases, or the bound track failed.
    Error,
    /// The bound track has ended.
    Eos,
    /// The element stopped; the caller should unwind, not retry.
    Flushing,
}

} // verus!
