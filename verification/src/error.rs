//! The two failure kinds every operation of the helper surfaces.

use vstd::prelude::*;

verus! {

/// Why an operation failed. The helper performs no recovery or retry: the
/// first error encountered is surfaced to the caller uninterpreted.
#[derive(Clone, Copy, PartialEq, Eq, Structural, Debug)]
pub enum ClientError {
    /// The network transport failed: an RPC error or a confirmation timeout.
    Transport,
    /// An on-chain program rejected an instruction's encoding or its
    /// preconditions, such as a decimals mismatch or an insufficient balance.
    Program,
}

/// The result type every operation of the helper returns.
pub type ClientResult<T> = Result<T, ClientError>;

} // verus!
