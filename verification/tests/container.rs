use std::cell::RefCell;

use shader_lab::event::{poll_signal, Event, LoopState};
use shader_lab::frame::{clear_color, FrameError, FrameAction, FrameEvent, FramePhase, Rgba};
use shader_lab::stage::{DrawCall, Stage, StageContainer};

/// A static scene: one point, drawn by one index, with a clock of its own.
struct Still {
    clock: u64,
    prepared: u64,
    calls: RefCell<Vec<&'static str>>,
}

impl Still {
    fn new() -> Still {
        Still { clock: 0, prepared: 0, calls: RefCell::new(Vec::new()) }
    }
}

impl Stage for Still {
    type Vertices = Vec<(i32, i32)>;
    type Indices = Vec<u16>;
    type Program = &'static str;
    type Uniforms = u64;
    type DrawParams = bool;

    fn update(&mut self, dt: u64) {
        self.calls.borrow_mut().push("update");
        self.clock += dt;
    }

    fn render(&mut self, dt: u64) {
        self.calls.borrow_mut().push("render");
        self.prepared += dt;
    }

    fn get_vertex_buffer(&self) -> Vec<(i32, i32)> {
        self.calls.borrow_mut().push("vertices");
        vec![(0, 0)]
    }

    fn get_index_buffer(&self) -> Vec<u16> {
        self.calls.borrow_mut().push("indices");
        vec![1]
    }

    fn get_program(&self) -> &'static str {
        self.calls.borrow_mut().push("program");
        "points"
    }

    fn get_uniforms(&self) -> u64 {
        self.calls.borrow_mut().push("uniforms");
        self.clock
    }

    fn get_draw_params(&self) -> bool {
        self.calls.borrow_mut().push("params");
        true
    }
}

fn submitted_call(action: FrameAction<DrawCall<Still>>) -> DrawCall<Still> {
    match action {
        FrameAction::Submit(call) => call,
        _ => panic!("expected a draw call"),
    }
}

#[test]
fn event_signal_breaks_only_on_close() {
    assert_eq!(Event::Closed.signal(), LoopState::Break);
    assert_eq!(Event::PointerMoved(3, -4).signal(), LoopState::Continue);
    assert_eq!(Event::Other.signal(), LoopState::Continue);
}

#[test]
fn poll_signal_of_empty_queue_is_none() {
    assert_eq!(poll_signal(&Vec::new()), None);
}

#[test]
fn poll_signal_goes_by_oldest_event() {
    assert_eq!(poll_signal(&vec![Event::Closed]), Some(LoopState::Break));
    assert_eq!(poll_signal(&vec![Event::Closed, Event::Other]), Some(LoopState::Break));
    assert_eq!(poll_signal(&vec![Event::Other]), Some(LoopState::Continue));
    assert_eq!(
        poll_signal(&vec![Event::PointerMoved(1, 2), Event::Closed]),
        Some(LoopState::Continue)
    );
}

#[test]
fn clear_color_is_transparent_black() {
    assert_eq!(clear_color(), Rgba { r: 0, g: 0, b: 0, a: 0 });
}

#[test]
fn new_container_is_idle_and_leaves_stage_alone() {
    let container = StageContainer::new(Still::new());
    assert_eq!(container.frame_phase(), FramePhase::Idle);
    assert_eq!(container.stage().clock, 0);
    assert!(container.stage().calls.borrow().is_empty());
}

#[test]
fn container_update_advances_stage_once() {
    let mut container = StageContainer::new(Still::new());
    container.update(16);
    assert_eq!(container.stage().clock, 16);
    assert_eq!(container.stage().prepared, 0);
    assert_eq!(*container.stage().calls.borrow(), vec!["update"]);
    assert_eq!(container.frame_phase(), FramePhase::Idle);
}

#[test]
fn updates_add_up() {
    let mut twice = StageContainer::new(Still::new());
    twice.update(5);
    twice.update(11);
    let mut once = StageContainer::new(Still::new());
    once.update(16);
    assert_eq!(twice.stage().clock, once.stage().clock);
    assert_eq!(twice.stage().get_uniforms(), once.stage().get_uniforms());
}

#[test]
fn start_asks_for_cleared_frame() {
    let mut container = StageContainer::new(Still::new());
    let action = container.draw(FrameEvent::Start(8));
    assert!(matches!(action, FrameAction::Acquire(Rgba { r: 0, g: 0, b: 0, a: 0 })));
    assert_eq!(container.frame_phase(), FramePhase::Acquiring(8));
    assert!(container.stage().calls.borrow().is_empty());
}

#[test]
fn acquired_frame_gets_one_draw_call_gathered_in_order() {
    let mut container = StageContainer::new(Still::new());
    container.update(7);
    container.draw(FrameEvent::Start(8));
    let call = submitted_call(container.draw(FrameEvent::Acquired));
    assert_eq!(call.vertices, vec![(0, 0)]);
    assert_eq!(call.indices, vec![1]);
    assert_eq!(call.program, "points");
    assert_eq!(call.uniforms, 7);
    assert!(call.draw_params);
    assert_eq!(container.stage().prepared, 8);
    assert_eq!(container.frame_phase(), FramePhase::Submitting(8));
    assert_eq!(
        *container.stage().calls.borrow(),
        vec!["update", "render", "vertices", "indices", "program", "uniforms", "params"]
    );
}

#[test]
fn submitted_frame_is_presented() {
    let mut container = StageContainer::new(Still::new());
    container.draw(FrameEvent::Start(8));
    container.draw(FrameEvent::Acquired);
    let action = container.draw(FrameEvent::Submitted);
    assert!(matches!(action, FrameAction::Present));
    assert_eq!(container.frame_phase(), FramePhase::Idle);
}

#[test]
fn refused_frame_is_discarded_with_reason() {
    let mut container = StageContainer::new(Still::new());
    container.draw(FrameEvent::Start(8));
    container.draw(FrameEvent::Acquired);
    let action = container.draw(FrameEvent::Refused(FrameError::Rejected));
    assert!(matches!(action, FrameAction::Discard(FrameError::Rejected)));
    assert_eq!(container.frame_phase(), FramePhase::Idle);
}

#[test]
fn mismatched_uniforms_fail_as_configuration_error() {
    let mut container = StageContainer::new(Still::new());
    container.draw(FrameEvent::Start(8));
    container.draw(FrameEvent::Acquired);
    let action = container.draw(FrameEvent::Refused(FrameError::Configuration));
    assert!(matches!(action, FrameAction::Discard(FrameError::Configuration)));
    assert!(!matches!(action, FrameAction::Present));
    assert_eq!(container.frame_phase(), FramePhase::Idle);
}

#[test]
fn events_out_of_phase_are_ignored() {
    let mut container = StageContainer::new(Still::new());
    assert!(matches!(container.draw(FrameEvent::Acquired), FrameAction::Ignore));
    assert!(matches!(container.draw(FrameEvent::Submitted), FrameAction::Ignore));
    assert!(matches!(
        container.draw(FrameEvent::Refused(FrameError::Rejected)),
        FrameAction::Ignore
    ));
    assert!(matches!(container.draw(FrameEvent::Cancelled), FrameAction::Ignore));
    assert_eq!(container.frame_phase(), FramePhase::Idle);
    container.draw(FrameEvent::Start(3));
    assert!(matches!(container.draw(FrameEvent::Start(4)), FrameAction::Ignore));
    assert!(matches!(container.draw(FrameEvent::Submitted), FrameAction::Ignore));
    assert_eq!(container.frame_phase(), FramePhase::Acquiring(3));
    container.draw(FrameEvent::Acquired);
    assert!(matches!(container.draw(FrameEvent::Acquired), FrameAction::Ignore));
    assert!(matches!(container.draw(FrameEvent::Start(4)), FrameAction::Ignore));
    assert!(matches!(container.draw(FrameEvent::Cancelled), FrameAction::Ignore));
    assert_eq!(container.frame_phase(), FramePhase::Submitting(3));
    assert_eq!(container.stage().prepared, 3);
}

#[test]
fn n_draws_make_n_submissions() {
    let mut container = StageContainer::new(Still::new());
    let mut acquired = 0;
    let mut submitted = 0;
    let mut released = 0;
    for frame in 0..25u64 {
        let outcome = if frame % 5 == 4 {
            FrameEvent::Refused(FrameError::Rejected)
        } else {
            FrameEvent::Submitted
        };
        for event in [FrameEvent::Start(frame), FrameEvent::Acquired, outcome] {
            match container.draw(event) {
                FrameAction::Acquire(_) => acquired += 1,
                FrameAction::Submit(call) => {
                    assert_eq!(call.vertices, vec![(0, 0)]);
                    assert_eq!(call.indices, vec![1]);
                    submitted += 1;
                }
                FrameAction::Present | FrameAction::Discard(_) => released += 1,
                FrameAction::Ignore => panic!("a step of a whole frame was ignored"),
            }
        }
        assert_eq!(acquired, frame + 1);
        assert_eq!(submitted, frame + 1);
        assert_eq!(released, frame + 1);
    }
    assert_eq!(submitted, 25);
}

#[test]
fn frame_without_a_draw_call_is_presented_as_cleared() {
    let mut container = StageContainer::new(Still::new());
    let first = container.draw(FrameEvent::Start(8));
    assert!(matches!(first, FrameAction::Acquire(Rgba { r: 0, g: 0, b: 0, a: 0 })));
    assert!(matches!(container.draw(FrameEvent::Cancelled), FrameAction::Present));
    assert_eq!(container.frame_phase(), FramePhase::Idle);
    assert!(container.stage().calls.borrow().is_empty());
    assert_eq!(container.stage().prepared, 0);

    assert!(matches!(container.draw(FrameEvent::Start(8)), FrameAction::Acquire(_)));
    assert!(matches!(container.draw(FrameEvent::Acquired), FrameAction::Submit(_)));
    assert!(matches!(container.draw(FrameEvent::Submitted), FrameAction::Present));
}
