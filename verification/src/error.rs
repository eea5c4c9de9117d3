use vstd::prelude::*;

verus! {

/// Why a call was turned down. The set is closed.
#[derive(Clone, Copy, Debug, PartialEq, Eq, Structural)]
pub enum Error {
    /// The origin of the call does not name a signer.
    BadOrigin,
    /// A value was needed that has not been written yet. Nothing raises this
    /// so far: it is kept for calls that read before they write.
    NoneValue,
}

} // verus!
