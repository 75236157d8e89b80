//! The simulation core an external host drives one cycle at a time: the
//! command gateway runs first, then the timer-gated scheduler decides whether
//! a generation step fires, and a fired step is computed synchronously and
//! committed before the cycle returns.

use vstd::prelude::*;

use crate::control::{apply_controls, SimControls};
use crate::grid::{dead_grid, lemma_dead_grid_stays_dead, step_spec, Grid};
use crate::scheduler::{sat_add, StepScheduler};

verus! {

/// The grid and the step scheduler, exclusively owned by the core and
/// mutated only through `update`.
pub struct Simulation {
    pub grid: Grid,
    pub scheduler: StepScheduler,
}

impl Simulation {
    /// Builds a core with an all-dead grid and a fresh accumulator.
    /// Degenerate dimensions or a zero period are rejected at this boundary
    /// by the preconditions.
    pub fn new(width: usize, height: usize, period_ms: u64) -> (s: Simulation)
        requires
            width >= 1,
            height >= 1,
            width * height <= usize::MAX,
            period_ms >= 1,
        ensures
            s.grid.wf(),
            s.grid.mirrored(),
            s.scheduler.inv(),
            s.grid@.width == width,
            s.grid@.height == height,
            s.grid@.alive == dead_grid(width as int, height as int),
            s.scheduler.acc() == 0,
            s.scheduler.period_ms() == period_ms,
    {
        Simulation { grid: Grid::new(width, height), scheduler: StepScheduler::new(period_ms) }
    }

    /// One host-driven cycle. The gateway applies pending one-shot commands
    /// first, whether or not the simulation is paused; then, unless paused,
    /// the scheduler accumulates `delta_ms` and at most one full generation
    /// step fires and is committed. While paused, simulated time is frozen:
    /// neither the accumulator nor the grid changes.
    pub fn update(&mut self, controls: &mut SimControls, delta_ms: u64)
        requires
            old(self).grid.wf(),
            old(self).scheduler.inv(),
        ensures
            final(self).grid.wf(),
            final(self).scheduler.inv(),
            final(self).grid@.width == old(self).grid@.width,
            final(self).grid@.height == old(self).grid@.height,
            final(self).scheduler.period_ms() == old(self).scheduler.period_ms(),
            old(self).grid.mirrored() ==> final(self).grid.mirrored(),
            // the pause toggle belongs to the external panel and is never touched
            final(controls).is_paused == old(controls).is_paused,
            // one-shot consumption; restart takes priority and leaves clear pending
            old(controls).should_restart ==> !final(controls).should_restart
                && final(controls).should_clear == old(controls).should_clear,
            !old(controls).should_restart && old(controls).should_clear
                ==> !final(controls).should_clear && !final(controls).should_restart,
            !old(controls).should_restart && !old(controls).should_clear ==> *final(controls)
                == *old(controls),
            // the accumulator is frozen while paused, else advanced by delta
            old(controls).is_paused ==> final(self).scheduler == old(self).scheduler,
            !old(controls).is_paused ==> {
                let due = old(self).scheduler.fires(delta_ms as int);
                &&& (due ==> final(self).scheduler.acc() == sat_add(
                    old(self).scheduler.acc(),
                    delta_ms as int,
                ) % old(self).scheduler.period_ms())
                &&& (!due ==> final(self).scheduler.acc() == sat_add(
                    old(self).scheduler.acc(),
                    delta_ms as int,
                ))
            },
            // the committed grid: commands first, then at most one step if due
            ({
                let w = old(self).grid@.width;
                let h = old(self).grid@.height;
                let stepped = !old(controls).is_paused
                    && old(self).scheduler.fires(delta_ms as int);
                &&& (!old(controls).should_restart && !old(controls).should_clear
                    ==> final(self).grid@.alive == if stepped {
                    step_spec(old(self).grid@.alive, w, h)
                } else {
                    old(self).grid@.alive
                })
                &&& (!old(controls).should_restart && old(controls).should_clear
                    ==> final(self).grid@.alive == dead_grid(w, h))
                &&& (old(controls).should_restart ==> exists|seeded: Seq<bool>|
                    seeded.len() == w * h && final(self).grid@.alive == if stepped {
                        step_spec(seeded, w, h)
                    } else {
                        seeded
                    })
            }),
            // pausing freezes state: with no pending command, nothing changes
            old(controls).is_paused && !old(controls).should_restart
                && !old(controls).should_clear
                ==> *final(self) == *old(self) && *final(controls) == *old(controls),
    {
        let ghost w = self.grid@.width;
        let ghost h = self.grid@.height;
        apply_controls(controls, &mut self.grid);
        let ghost seeded = self.grid@.alive;
        let due = self.scheduler.tick(delta_ms, controls.is_paused);
        if due {
            self.grid.step();
        }
        proof {
            if old(controls).should_restart {
                let stepped_alive = if due {
                    step_spec(seeded, w, h)
                } else {
                    seeded
                };
                assert(seeded.len() == w * h && self.grid@.alive == stepped_alive);
                assert(exists|g1: Seq<bool>|
                    g1.len() == w * h && self.grid@.alive == if due {
                        step_spec(g1, w, h)
                    } else {
                        g1
                    });
            }
            if !old(controls).should_restart && old(controls).should_clear {
                lemma_dead_grid_stays_dead(w, h);
            }
        }
    }
}

} // verus!
