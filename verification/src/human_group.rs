//! Settlements attached to a cell.

use vstd::prelude::*;

verus! {

/// A group of people that lives in one cell.
#[derive(Debug, Clone, Copy, PartialEq, Eq, Hash, Default, Structural)]
pub struct HumanGroup {
    pub id: u32,
    pub population: u32,
}

} // verus!
