//! What the panels have in common.
use vstd::prelude::*;

verus! {

/// Which waveform table a panel refreshes with.
#[derive(Clone, Copy, PartialEq, Eq, Structural, Debug)]
pub enum RefreshLut {
    /// The full refresh: slow, and free of ghosting.
    Full,
    /// The quick refresh: fast, and it may leave traces.
    Quick,
}

} // verus!
