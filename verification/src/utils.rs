//! Small shared utilities.

use vstd::prelude::*;

verus! {

/// Errors from the port-probing helpers of the I/O layer.
#[derive(Debug, Clone, PartialEq, Eq, Structural)]
pub enum Error {
    /// No unused port could be obtained.
    Port,
}

} // verus!
