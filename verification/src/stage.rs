//! The stage contract and the container that owns a stage.
use vstd::prelude::*;
use crate::frame::{
    balanced, clear_color, empty_ledger, next_ledger, next_phase, transparent_black, FrameAction,
    FrameEvent, FrameLedger, FramePhase, FrameTracker,
};

verus! {

/// A self-contained scene. The container asks it, once per frame, for
/// everything one draw call takes.
///
/// Times are elapsed nanoseconds. `update` and `render` change nothing but the
/// stage's own fields. A stage may say what its operations do by giving the
/// relations below a body; one that does not promises nothing of them.
pub trait Stage: Sized {
    /// The geometry of a frame.
    type Vertices;

    /// The order in which the vertices are drawn.
    type Indices;

    /// The compiled shader program.
    type Program;

    /// The values bound to the program's uniforms.
    type Uniforms;

    /// Blending, depth and stencil state of the draw call.
    type DrawParams;

    /// Whether `next` is this stage advanced by `dt`.
    open spec fn updates_to(&self, dt: nat, next: &Self) -> bool {
        true
    }

    /// Whether `next` is this stage made ready for a frame `dt` after the last.
    open spec fn renders_to(&self, dt: nat, next: &Self) -> bool {
        true
    }

    /// Whether `vertices` is this stage's geometry.
    open spec fn has_vertices(&self, vertices: &Self::Vertices) -> bool {
        true
    }

    /// Whether `indices` is this stage's draw order.
    open spec fn has_indices(&self, indices: &Self::Indices) -> bool {
        true
    }

    /// Whether `program` is this stage's shader program.
    open spec fn has_program(&self, program: &Self::Program) -> bool {
        true
    }

    /// Whether `uniforms` holds this stage's uniform values.
    open spec fn has_uniforms(&self, uniforms: &Self::Uniforms) -> bool {
        true
    }

    /// Whether `draw_params` is this stage's draw state.
    open spec fn has_draw_params(&self, draw_params: &Self::DrawParams) -> bool {
        true
    }

    /// Advances the simulation by `dt`.
    fn update(&mut self, dt: u64)
        ensures
            old(self).updates_to(dt as nat, final(self)),
    ;

    /// Makes ready for the frame that is about to be drawn.
    fn render(&mut self, dt: u64)
        ensures
            old(self).renders_to(dt as nat, final(self)),
    ;

    /// The current frame's vertices.
    fn get_vertex_buffer(&self) -> (vertices: Self::Vertices)
        ensures
            self.has_vertices(&vertices),
    ;

    /// The current frame's indices into its vertices.
    fn get_index_buffer(&self) -> (indices: Self::Indices)
        ensures
            self.has_indices(&indices),
    ;

    /// The shader program to draw with.
    fn get_program(&self) -> (program: Self::Program)
        ensures
            self.has_program(&program),
    ;

    /// The uniform values that go with the program.
    fn get_uniforms(&self) -> (uniforms: Self::Uniforms)
        ensures
            self.has_uniforms(&uniforms),
    ;

    /// The parameters of the draw call.
    fn get_draw_params(&self) -> (draw_params: Self::DrawParams)
        ensures
            self.has_draw_params(&draw_params),
    ;
}

/// Everything one draw call takes, gathered from one state of a stage.
pub struct DrawCall<T: Stage> {
    pub vertices: T::Vertices,
    pub indices: T::Indices,
    pub program: T::Program,
    pub uniforms: T::Uniforms,
    pub draw_params: T::DrawParams,
}

impl<T: Stage> DrawCall<T> {
    /// Bundles the five parts of a draw call.
    pub fn new(
        vertices: T::Vertices,
        indices: T::Indices,
        program: T::Program,
        uniforms: T::Uniforms,
        draw_params: T::DrawParams,
    ) -> (call: Self)
        ensures
            call.vertices == vertices,
            call.indices == indices,
            call.program == program,
            call.uniforms == uniforms,
            call.draw_params == draw_params,
    {
        DrawCall { vertices, indices, program, uniforms, draw_params }
    }
}

/// Whether `next` is `obj` after `event` arrived in `phase`: the stage makes
/// ready when its frame has arrived, and is left alone by every other step.
pub open spec fn stage_steps_to<T: Stage>(obj: T, phase: FramePhase, event: FrameEvent, next: T)
    -> bool {
    match (phase, event) {
        (FramePhase::Acquiring(dt), FrameEvent::Acquired) => obj.renders_to(dt as nat, &next),
        _ => next == obj,
    }
}

/// Whether all five parts of `call` come from the one state `obj`.
pub open spec fn gathered_from<T: Stage>(call: DrawCall<T>, obj: T) -> bool {
    &&& obj.has_vertices(&call.vertices)
    &&& obj.has_indices(&call.indices)
    &&& obj.has_program(&call.program)
    &&& obj.has_uniforms(&call.uniforms)
    &&& obj.has_draw_params(&call.draw_params)
}

/// Whether `action` is the answer owed to `event` in `phase`, where `obj` is
/// the stage after the step.
pub open spec fn answers<T: Stage>(
    action: FrameAction<DrawCall<T>>,
    phase: FramePhase,
    event: FrameEvent,
    obj: T,
) -> bool {
    match (phase, event) {
        (FramePhase::Idle, FrameEvent::Start(_)) => action == FrameAction::<
            DrawCall<T>,
        >::Acquire(transparent_black()),
        (FramePhase::Acquiring(_), FrameEvent::Acquired) => match action {
            FrameAction::Submit(call) => gathered_from(call, obj),
            _ => false,
        },
        (FramePhase::Submitting(_), FrameEvent::Submitted) => action == FrameAction::<
            DrawCall<T>,
        >::Present,
        (FramePhase::Submitting(_), FrameEvent::Refused(error)) => action == FrameAction::<
            DrawCall<T>,
        >::Discard(error),
        (FramePhase::Acquiring(_), FrameEvent::Cancelled) => action == FrameAction::<
            DrawCall<T>,
        >::Present,
        _ => action == FrameAction::<DrawCall<T>>::Ignore,
    }
}

/// The sole owner of a stage. Nothing changes the stage but `update` and the
/// step of `draw` on which its frame arrives.
pub struct StageContainer<T: Stage> {
    obj: T,
    frame: FrameTracker,
}

impl<T: Stage> StageContainer<T> {
    /// The stage as it stands.
    pub closed spec fn obj(&self) -> T {
        self.obj
    }

    /// The phase of the frame protocol.
    pub closed spec fn phase(&self) -> FramePhase {
        self.frame.phase()
    }

    /// What has been asked of the host so far.
    pub closed spec fn ledger(&self) -> FrameLedger {
        self.frame.ledger()
    }

    /// Takes ownership of `obj`. No frame is in flight and nothing has been
    /// asked of the host.
    pub fn new(obj: T) -> (container: Self)
        ensures
            container.obj() == obj,
            container.phase() == FramePhase::Idle,
            container.ledger() == empty_ledger(),
    {
        StageContainer { obj, frame: FrameTracker::new() }
    }

    /// The stage, to read.
    pub fn stage(&self) -> (stage: &T)
        ensures
            *stage == self.obj(),
    {
        &self.obj
    }

    /// The phase of the frame protocol. The ledger is balanced with it.
    pub fn frame_phase(&self) -> (phase: FramePhase)
        ensures
            phase == self.phase(),
            balanced(self.ledger(), phase),
    {
        self.frame.current()
    }

    /// Advances the stage by `dt`. The frame protocol is not touched.
    pub fn update(&mut self, dt: u64)
        ensures
            old(self).obj().updates_to(dt as nat, &final(self).obj()),
            final(self).phase() == old(self).phase(),
            final(self).ledger() == old(self).ledger(),
    {
        self.obj.update(dt);
    }

    /// One step of drawing a frame.
    ///
    /// `Start` on an idle container asks for a frame cleared to transparent
    /// black. Once the frame is `Acquired` the stage makes ready and hands out
    /// vertices, indices, program, uniforms and draw parameters, in that
    /// order and from one state; they go out as one draw call. When the call
    /// was `Submitted` the frame is presented, when it was `Refused` the frame
    /// is discarded with the reason: either way it is released. A frame that
    /// is `Cancelled` while it is asked for is presented as it was cleared,
    /// and the stage is not touched. An event that the phase does not wait
    /// for is ignored and changes nothing.
    pub fn draw(&mut self, event: FrameEvent) -> (action: FrameAction<DrawCall<T>>)
        ensures
            answers(action, old(self).phase(), event, final(self).obj()),
            stage_steps_to(old(self).obj(), old(self).phase(), event, final(self).obj()),
            final(self).phase() == next_phase(old(self).phase(), event),
            final(self).ledger() == next_ledger(old(self).ledger(), old(self).phase(), event),
            balanced(final(self).ledger(), final(self).phase()),
    {
        let phase = self.frame.current();
        self.frame.advance(event);
        match (phase, event) {
            (FramePhase::Idle, FrameEvent::Start(_)) => FrameAction::Acquire(clear_color()),
            (FramePhase::Acquiring(dt), FrameEvent::Acquired) => {
                self.obj.render(dt);
                let vertices = self.obj.get_vertex_buffer();
                let indices = self.obj.get_index_buffer();
                let program = self.obj.get_program();
                let uniforms = self.obj.get_uniforms();
                let draw_params = self.obj.get_draw_params();
                FrameAction::Submit(DrawCall::new(vertices, indices, program, uniforms, draw_params))
            },
            (FramePhase::Submitting(_), FrameEvent::Submitted) => FrameAction::Present,
            (FramePhase::Submitting(_), FrameEvent::Refused(e)) => FrameAction::Discard(e),
            (FramePhase::Acquiring(_), FrameEvent::Cancelled) => FrameAction::Present,
            _ => FrameAction::Ignore,
        }
    }
}

/// The ledger books exactly what the answers ask of the host: an acquisition
/// with each `Acquire`, a draw call with each `Submit`, a release with each
/// `Present` or `Discard`, and nothing with `Ignore`. No answer but `Submit`
/// stands for a draw call.
pub proof fn lemma_ledger_books_answers<T: Stage>(
    action: FrameAction<DrawCall<T>>,
    ledger: FrameLedger,
    phase: FramePhase,
    event: FrameEvent,
    obj: T,
)
    requires
        answers(action, phase, event, obj),
    ensures
        ({
            let next = next_ledger(ledger, phase, event);
            &&& next.acquired == ledger.acquired + (if action is Acquire {
                1nat
            } else {
                0nat
            })
            &&& next.submitted == ledger.submitted + (if action is Submit {
                1nat
            } else {
                0nat
            })
            &&& next.released == ledger.released + (if action is Present || action is Discard {
                1nat
            } else {
                0nat
            })
        }),
{
}

} // verus!
