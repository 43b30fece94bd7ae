//! The plainest stage there is: one point, and a clock.
use vstd::prelude::*;
use crate::clock::{advance, clock_after, lemma_clock_adds_up};
use crate::stage::Stage;

verus! {

/// A static scene of a single point. Updates accumulate in `elapsed`; making
/// ready for a frame copies that time to `shown`, which goes out as the
/// frame's uniform.
#[derive(Clone, Copy, Debug, PartialEq, Eq, Structural)]
pub struct PointStage {
    /// Nanoseconds of simulation so far.
    pub elapsed: u64,
    /// The simulation time that the latest frame was made ready for.
    pub shown: u64,
}

impl PointStage {
    /// A stage at time zero.
    pub fn new() -> (stage: Self)
        ensures
            stage == (PointStage { elapsed: 0, shown: 0 }),
    {
        PointStage { elapsed: 0, shown: 0 }
    }
}

impl Stage for PointStage {
    type Vertices = (i32, i32);

    type Indices = u16;

    type Program = ();

    type Uniforms = u64;

    type DrawParams = ();

    open spec fn updates_to(&self, dt: nat, next: &Self) -> bool {
        *next == (PointStage { elapsed: clock_after(self.elapsed, dt), shown: self.shown })
    }

    open spec fn renders_to(&self, dt: nat, next: &Self) -> bool {
        *next == (PointStage { elapsed: self.elapsed, shown: self.elapsed })
    }

    open spec fn has_vertices(&self, vertices: &(i32, i32)) -> bool {
        *vertices == (0i32, 0i32)
    }

    open spec fn has_indices(&self, indices: &u16) -> bool {
        *indices == 1
    }

    open spec fn has_uniforms(&self, uniforms: &u64) -> bool {
        *uniforms == self.shown
    }

    fn update(&mut self, dt: u64) {
        self.elapsed = advance(self.elapsed, dt);
    }

    fn render(&mut self, dt: u64) {
        self.shown = self.elapsed;
    }

    fn get_vertex_buffer(&self) -> (vertices: (i32, i32)) {
        (0, 0)
    }

    fn get_index_buffer(&self) -> (indices: u16) {
        1
    }

    fn get_program(&self) {
    }

    fn get_uniforms(&self) -> (uniforms: u64) {
        self.shown
    }

    fn get_draw_params(&self) {
    }
}

/// Two updates in a row leave a point stage exactly where one update by the
/// sum of their steps leaves it.
pub proof fn lemma_updates_add_up(
    start: PointStage,
    dt1: nat,
    middle: PointStage,
    dt2: nat,
    end: PointStage,
)
    requires
        start.updates_to(dt1, &middle),
        middle.updates_to(dt2, &end),
    ensures
        start.updates_to(dt1 + dt2, &end),
{
    lemma_clock_adds_up(start.elapsed, dt1, dt2);
}

} // verus!
