//! The rule engine: Conway's Game of Life rule for a single cell.

use vstd::prelude::*;

verus! {

/// Conway's rule. A live cell survives exactly when it has 2 or 3 live
/// neighbors; a dead cell is born exactly when it has 3.
pub open spec fn life_rule(alive: bool, live_neighbors: nat) -> bool {
    if alive {
        live_neighbors == 2 || live_neighbors == 3
    } else {
        live_neighbors == 3
    }
}

/// Next committed state of one cell, given its current committed state and
/// the number of live neighbors in the current committed generation.
pub fn next_state(currently_alive: bool, live_neighbor_count: u8) -> (next: bool)
    ensures
        next == life_rule(currently_alive, live_neighbor_count as nat),
{
    if currently_alive {
        live_neighbor_count == 2 || live_neighbor_count == 3
    } else {
        live_neighbor_count == 3
    }
}

} // verus!
