use vstd::prelude::*;

verus! {

/// Why an indicator could not be built.
#[derive(Clone, Copy, Debug, PartialEq, Eq, Structural)]
pub enum TaError {
    /// A period of zero bars was asked for.
    InvalidParameter,
}

} // verus!
