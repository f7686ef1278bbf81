use vstd::prelude::*;

verus! {

/// Errors of the rover's command path.
#[derive(Debug, Clone, Copy, PartialEq, Eq, Structural)]
pub enum Error {
    /// A frame arrived whose direction byte names no known direction.
    Parsing,
}

} // verus!
