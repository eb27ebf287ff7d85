use vstd::prelude::*;

verus! {

/// Side of a position.
#[derive(Clone, Copy, Debug, PartialEq, Eq, Structural)]
pub enum Side {
    Long,
    Short,
}

} // verus!
