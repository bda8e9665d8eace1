//! The failures that the core reports.
use vstd::prelude::*;

verus! {

/// What can go wrong below a panel driver.
///
/// A failed bus transaction is not listed here: it carries the transport's
/// own error value, which [`crate::framer::Step::Failed`] hands back as it
/// was reported.
#[derive(Clone, Copy, PartialEq, Eq, Structural, Debug)]
pub enum Error {
    /// A rectangle without width or height, or one whose far edge does not
    /// fit the coordinate type.
    InvalidWindow,
    /// The panel stayed busy for every poll that the wait was allowed.
    Timeout,
}

} // verus!
