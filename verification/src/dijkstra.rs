use vstd::prelude::*;

verus! {

/// Execution units as the Dijkstra genesis file declares them.
#[derive(Debug, Clone, Copy, PartialEq, Eq, Structural)]
pub struct ExUnits {
    pub memory: u64,
    pub steps: u64,
}

} // verus!
