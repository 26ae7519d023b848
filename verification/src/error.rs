//! What ends a run before all its distributors are dealt with.
use vstd::prelude::*;

verus! {

/// A failure that stops the whole run.
#[derive(Clone, Copy, Debug, PartialEq, Eq)]
pub enum RunError {
    /// The first version of the range lies above the last.
    InvalidRange { from_version: u64, to_version: u64 },
    /// The tree file at this position of the sorted listing could not be read as a tree.
    FileRead { position: usize },
    /// No address could be derived for the distributor of this version.
    AddressDerivation { version: u64 },
    /// No address could be derived for the token account of the clawback receiver.
    ReceiverDerivation,
    /// The record of the distributor of this version could not be fetched or decoded.
    Rpc { version: u64 },
}

} // verus!
