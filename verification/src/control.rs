//! The command gateway: one-shot restart/clear flags and the persistent
//! pause toggle, applied to the grid once per cycle before the scheduler
//! runs, whether or not the simulation is paused.

use vstd::prelude::*;

use crate::grid::{dead_grid, Grid};

verus! {

/// Command flags written by an external control panel. `should_restart` and
/// `should_clear` are one-shot: consumed and reset by the gateway in the
/// cycle that observes them. `is_paused` is persistent: only an external
/// toggle changes it.
pub struct SimControls {
    pub should_restart: bool,
    pub should_clear: bool,
    pub is_paused: bool,
}

impl SimControls {
    /// The initial control state: no pending command, running.
    pub fn new() -> (c: SimControls)
        ensures
            !c.should_restart,
            !c.should_clear,
            !c.is_paused,
    {
        SimControls { should_restart: false, should_clear: false, is_paused: false }
    }
}

/// Applies pending one-shot commands to the grid. Restart takes priority
/// over clear: when both are set, only the restart is consumed this cycle
/// and the clear request stays pending. The pause flag is read elsewhere and
/// never reset here.
pub fn apply_controls(controls: &mut SimControls, grid: &mut Grid)
    requires
        old(grid).wf(),
    ensures
        final(grid).wf(),
        final(grid)@.width == old(grid)@.width,
        final(grid)@.height == old(grid)@.height,
        final(controls).is_paused == old(controls).is_paused,
        old(controls).should_restart ==> {
            &&& !final(controls).should_restart
            &&& final(controls).should_clear == old(controls).should_clear
            &&& final(grid).mirrored()
        },
        !old(controls).should_restart && old(controls).should_clear ==> {
            &&& !final(controls).should_clear
            &&& !final(controls).should_restart
            &&& final(grid).mirrored()
            &&& final(grid)@.alive == dead_grid(old(grid)@.width, old(grid)@.height)
        },
        !old(controls).should_restart && !old(controls).should_clear ==> {
            &&& *final(controls) == *old(controls)
            &&& *final(grid) == *old(grid)
        },
{
    if controls.should_restart {
        grid.randomize();
        controls.should_restart = false;
    } else if controls.should_clear {
        grid.clear();
        controls.should_clear = false;
    }
}

} // verus!
