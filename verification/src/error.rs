//! Errors of the fixed-capacity containers.

use vstd::prelude::*;

verus! {

/// The container has no room for what was to be appended.
#[derive(Clone, Copy, Debug, PartialEq, Eq, Structural)]
pub struct FullError;

} // verus!
