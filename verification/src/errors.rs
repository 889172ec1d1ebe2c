//! The failures that the handlers' decisions report.
use vstd::prelude::*;

verus! {

/// Why a request about a paste is refused.
#[derive(Debug, Clone, Copy, PartialEq, Eq, Structural)]
pub enum Error {
    /// The paste is not served at the requested address (answered as "not found").
    NotFound,
    /// The paste may not be deleted this way: only private pastes are deleted by their owner.
    Delete,
}

} // verus!
