//! The frame protocol: what the host reports, what it is asked to do next.
use vstd::prelude::*;

verus! {

/// A colour with alpha, one byte per channel.
#[derive(Clone, Copy, Debug, PartialEq, Eq, Structural)]
pub struct Rgba {
    pub r: u8,
    pub g: u8,
    pub b: u8,
    pub a: u8,
}

/// The background every frame starts from: fully transparent black.
pub open spec fn transparent_black() -> Rgba {
    Rgba { r: 0, g: 0, b: 0, a: 0 }
}

/// The colour a freshly acquired frame is cleared to.
pub fn clear_color() -> (c: Rgba)
    ensures
        c == transparent_black(),
{
    Rgba { r: 0, g: 0, b: 0, a: 0 }
}

/// Why the graphics context refused a draw call.
#[derive(Clone, Copy, Debug, PartialEq, Eq, Structural)]
pub enum FrameError {
    /// The stage's program and uniforms do not fit together. The stage is
    /// static, so every later frame would fail alike.
    Configuration,
    /// The context rejected this one submission.
    Rejected,
}

/// What a graphics context can find wrong with a draw call.
#[derive(Clone, Copy, Debug, PartialEq, Eq, Structural)]
pub enum Refusal {
    /// A depth test was asked for and the frame has no depth buffer.
    NoDepthBuffer,
    /// A vertex attribute's type is not the one the program declares.
    AttributeTypeMismatch,
    /// The vertices lack an attribute that the program reads.
    AttributeMissing,
    /// The viewport is larger than the context supports.
    ViewportTooLarge,
    /// The depth range lies outside of zero to one.
    InvalidDepthRange,
    /// A uniform's type is not the one the program declares.
    UniformTypeMismatch,
    /// A uniform buffer was bound where the program declares a single value.
    UniformBufferToValue,
    /// A single value was bound where the program declares a uniform block.
    UniformValueToBlock,
    /// A uniform buffer is not laid out as the program's block is.
    UniformBlockLayoutMismatch,
    /// A subroutine uniform was bound like a plain value.
    SubroutineUniformToValue,
    /// A shader stage was left with subroutine uniforms unset.
    SubroutineUniformMissing,
    /// A subroutine was named that the program does not have.
    SubroutineNotFound,
    /// The number of vertices per patch is not supported.
    UnsupportedVerticesPerPatch,
    /// The program tessellates and the context cannot.
    TessellationNotSupported,
    /// The program tessellates and no patches were submitted.
    TessellationWithoutPatches,
    /// A sampler was used and the context has none.
    SamplersNotSupported,
    /// The sources of an instanced draw differ in length.
    InstancesCountMismatch,
    /// The vertex sources of a draw without indices differ in length.
    VerticesSourcesLengthMismatch,
    /// Transform feedback was asked for and the context has none.
    TransformFeedbackNotSupported,
    /// A query was used in a way its kind does not allow.
    WrongQueryOperation,
    /// Smoothing was asked for and the context has none.
    SmoothingNotSupported,
    /// The provoking vertex asked for is not supported.
    ProvokingVertexNotSupported,
    /// Discarding the rasterizer's output is not supported.
    RasterizerDiscardNotSupported,
    /// Depth clamping is not supported.
    DepthClampNotSupported,
    /// A blending parameter is not supported.
    BlendingParameterNotSupported,
    /// Restarting indices is not supported.
    FixedIndexRestartingNotSupported,
    /// Changing the clip volume is not supported.
    ClipControlNotSupported,
    /// A clip plane was enabled that does not exist.
    ClipPlaneIndexOutOfBounds,
    /// More image units were used than the context has.
    InsufficientImageUnits,
}

/// Whether a refusal says that the uniforms do not fit the program. These
/// seven do, and no other: a fault in the vertex attributes, in the draw
/// parameters or in what the context supports is none.
pub open spec fn is_mismatch(refusal: Refusal) -> bool {
    match refusal {
        Refusal::UniformTypeMismatch => true,
        Refusal::UniformBufferToValue => true,
        Refusal::UniformValueToBlock => true,
        Refusal::UniformBlockLayoutMismatch => true,
        Refusal::SubroutineUniformToValue => true,
        Refusal::SubroutineUniformMissing => true,
        Refusal::SubroutineNotFound => true,
        _ => false,
    }
}

/// The error a refusal amounts to: a mismatch between uniforms and program is
/// a fault of the stage's configuration, anything else a rejected submission.
pub open spec fn error_of(refusal: Refusal) -> FrameError {
    if is_mismatch(refusal) {
        FrameError::Configuration
    } else {
        FrameError::Rejected
    }
}

/// Sorts a refusal into the two kinds of error.
pub fn classify(refusal: Refusal) -> (error: FrameError)
    ensures
        error == error_of(refusal),
{
    match refusal {
        Refusal::UniformTypeMismatch => FrameError::Configuration,
        Refusal::UniformBufferToValue => FrameError::Configuration,
        Refusal::UniformValueToBlock => FrameError::Configuration,
        Refusal::UniformBlockLayoutMismatch => FrameError::Configuration,
        Refusal::SubroutineUniformToValue => FrameError::Configuration,
        Refusal::SubroutineUniformMissing => FrameError::Configuration,
        Refusal::SubroutineNotFound => FrameError::Configuration,
        _ => FrameError::Rejected,
    }
}

/// Each refusal on uniforms or subroutines is a configuration error, and each
/// of the others is a rejected submission.
pub proof fn lemma_refusals_sorted()
    ensures
        error_of(Refusal::NoDepthBuffer) == FrameError::Rejected,
        error_of(Refusal::AttributeTypeMismatch) == FrameError::Rejected,
        error_of(Refusal::AttributeMissing) == FrameError::Rejected,
        error_of(Refusal::ViewportTooLarge) == FrameError::Rejected,
        error_of(Refusal::InvalidDepthRange) == FrameError::Rejected,
        error_of(Refusal::UniformTypeMismatch) == FrameError::Configuration,
        error_of(Refusal::UniformBufferToValue) == FrameError::Configuration,
        error_of(Refusal::UniformValueToBlock) == FrameError::Configuration,
        error_of(Refusal::UniformBlockLayoutMismatch) == FrameError::Configuration,
        error_of(Refusal::SubroutineUniformToValue) == FrameError::Configuration,
        error_of(Refusal::SubroutineUniformMissing) == FrameError::Configuration,
        error_of(Refusal::SubroutineNotFound) == FrameError::Configuration,
        error_of(Refusal::UnsupportedVerticesPerPatch) == FrameError::Rejected,
        error_of(Refusal::TessellationNotSupported) == FrameError::Rejected,
        error_of(Refusal::TessellationWithoutPatches) == FrameError::Rejected,
        error_of(Refusal::SamplersNotSupported) == FrameError::Rejected,
        error_of(Refusal::InstancesCountMismatch) == FrameError::Rejected,
        error_of(Refusal::VerticesSourcesLengthMismatch) == FrameError::Rejected,
        error_of(Refusal::TransformFeedbackNotSupported) == FrameError::Rejected,
        error_of(Refusal::WrongQueryOperation) == FrameError::Rejected,
        error_of(Refusal::SmoothingNotSupported) == FrameError::Rejected,
        error_of(Refusal::ProvokingVertexNotSupported) == FrameError::Rejected,
        error_of(Refusal::RasterizerDiscardNotSupported) == FrameError::Rejected,
        error_of(Refusal::DepthClampNotSupported) == FrameError::Rejected,
        error_of(Refusal::BlendingParameterNotSupported) == FrameError::Rejected,
        error_of(Refusal::FixedIndexRestartingNotSupported) == FrameError::Rejected,
        error_of(Refusal::ClipControlNotSupported) == FrameError::Rejected,
        error_of(Refusal::ClipPlaneIndexOutOfBounds) == FrameError::Rejected,
        error_of(Refusal::InsufficientImageUnits) == FrameError::Rejected,
{
}

/// Where the container stands within one frame. The elapsed time of the frame
/// travels with it.
#[derive(Clone, Copy, Debug, PartialEq, Eq, Structural)]
pub enum FramePhase {
    /// No frame is in flight.
    Idle,
    /// A frame was asked for and has not arrived yet.
    Acquiring(u64),
    /// A draw call was handed out and its outcome is awaited.
    Submitting(u64),
}

/// What the host reports to the container.
#[derive(Clone, Copy, Debug, PartialEq, Eq, Structural)]
pub enum FrameEvent {
    /// A new frame is due, the given time after the previous one.
    Start(u64),
    /// The graphics context handed out a cleared frame.
    Acquired,
    /// The graphics context took the draw call.
    Submitted,
    /// The graphics context refused the draw call.
    Refused(FrameError),
    /// The frame that was asked for is to be given up with nothing drawn on
    /// it.
    Cancelled,
}

impl FrameEvent {
    /// The event that reports a draw call refused for `refusal`.
    pub fn from_refusal(refusal: Refusal) -> (event: FrameEvent)
        ensures
            event == FrameEvent::Refused(error_of(refusal)),
    {
        FrameEvent::Refused(classify(refusal))
    }

}

/// What the container asks of the host.
#[derive(Debug, PartialEq, Eq)]
pub enum FrameAction<D> {
    /// Acquire a frame and clear it to the given colour.
    Acquire(Rgba),
    /// Submit this draw call onto the frame in flight.
    Submit(D),
    /// Finish the frame in flight and present it.
    Present,
    /// Release the frame in flight, with nothing of the refused draw call
    /// shown.
    Discard(FrameError),
    /// The event does not fit the phase: there is nothing to do.
    Ignore,
}

/// The phase that follows `phase` on `event`. An event that does not fit
/// leaves the phase as it is.
pub open spec fn next_phase(phase: FramePhase, event: FrameEvent) -> FramePhase {
    match (phase, event) {
        (FramePhase::Idle, FrameEvent::Start(dt)) => FramePhase::Acquiring(dt),
        (FramePhase::Acquiring(dt), FrameEvent::Acquired) => FramePhase::Submitting(dt),
        (FramePhase::Submitting(_), FrameEvent::Submitted) => FramePhase::Idle,
        (FramePhase::Submitting(_), FrameEvent::Refused(_)) => FramePhase::Idle,
        (FramePhase::Acquiring(_), FrameEvent::Cancelled) => FramePhase::Idle,
        _ => phase,
    }
}

/// How often each step of the protocol has been asked of the host.
pub ghost struct FrameLedger {
    /// Frames asked for.
    pub acquired: nat,
    /// Draw calls handed out.
    pub submitted: nat,
    /// Frames given up with nothing drawn on them.
    pub skipped: nat,
    /// Frames released, presented or discarded.
    pub released: nat,
}

/// The ledger after `event` arrived in `phase`.
pub open spec fn next_ledger(ledger: FrameLedger, phase: FramePhase, event: FrameEvent)
    -> FrameLedger {
    match (phase, event) {
        (FramePhase::Idle, FrameEvent::Start(_)) => FrameLedger {
            acquired: ledger.acquired + 1,
            ..ledger
        },
        (FramePhase::Acquiring(_), FrameEvent::Acquired) => FrameLedger {
            submitted: ledger.submitted + 1,
            ..ledger
        },
        (FramePhase::Submitting(_), FrameEvent::Submitted) => FrameLedger {
            released: ledger.released + 1,
            ..ledger
        },
        (FramePhase::Submitting(_), FrameEvent::Refused(_)) => FrameLedger {
            released: ledger.released + 1,
            ..ledger
        },
        (FramePhase::Acquiring(_), FrameEvent::Cancelled) => FrameLedger {
            skipped: ledger.skipped + 1,
            released: ledger.released + 1,
            ..ledger
        },
        _ => ledger,
    }
}

/// The ledger agrees with the phase: every frame asked for got exactly one
/// draw call or was given up, but for one still being acquired, and every
/// such frame was released exactly once, but for one whose submission is
/// still awaited.
pub open spec fn balanced(ledger: FrameLedger, phase: FramePhase) -> bool {
    &&& ledger.acquired == ledger.submitted + ledger.skipped + (if phase is Acquiring {
        1nat
    } else {
        0nat
    })
    &&& ledger.submitted + ledger.skipped == ledger.released + (if phase is Submitting {
        1nat
    } else {
        0nat
    })
}

/// The ledger of a container that has asked for nothing yet.
pub open spec fn empty_ledger() -> FrameLedger {
    FrameLedger { acquired: 0, submitted: 0, skipped: 0, released: 0 }
}

/// The container's place in the frame protocol, with the ledger of what it
/// has asked for. The ledger is always balanced with the phase.
pub struct FrameTracker {
    phase: FramePhase,
    ledger: Ghost<FrameLedger>,
}

impl FrameTracker {
    #[verifier::type_invariant]
    spec fn inv(self) -> bool {
        balanced(self.ledger@, self.phase)
    }

    /// The phase of the frame protocol.
    pub closed spec fn phase(&self) -> FramePhase {
        self.phase
    }

    /// What has been asked of the host so far.
    pub closed spec fn ledger(&self) -> FrameLedger {
        self.ledger@
    }

    /// A tracker with no frame in flight and nothing asked for yet.
    pub fn new() -> (tracker: Self)
        ensures
            tracker.phase() == FramePhase::Idle,
            tracker.ledger() == empty_ledger(),
    {
        FrameTracker {
            phase: FramePhase::Idle,
            ledger: Ghost(empty_ledger()),
        }
    }

    /// The phase of the frame protocol.
    pub fn current(&self) -> (phase: FramePhase)
        ensures
            phase == self.phase(),
            balanced(self.ledger(), phase),
    {
        proof {
            use_type_invariant(self);
        }
        self.phase
    }

    /// Moves on by `event`, and books what the step asks of the host.
    pub fn advance(&mut self, event: FrameEvent)
        ensures
            final(self).phase() == next_phase(old(self).phase(), event),
            final(self).ledger() == next_ledger(old(self).ledger(), old(self).phase(), event),
            balanced(final(self).ledger(), final(self).phase()),
    {
        proof {
            use_type_invariant(&*self);
        }
        let ghost ledger = next_ledger(self.ledger@, self.phase, event);
        let phase = match (self.phase, event) {
            (FramePhase::Idle, FrameEvent::Start(dt)) => FramePhase::Acquiring(dt),
            (FramePhase::Acquiring(dt), FrameEvent::Acquired) => FramePhase::Submitting(dt),
            (FramePhase::Submitting(_), FrameEvent::Submitted) => FramePhase::Idle,
            (FramePhase::Submitting(_), FrameEvent::Refused(_)) => FramePhase::Idle,
            (FramePhase::Acquiring(_), FrameEvent::Cancelled) => FramePhase::Idle,
            _ => self.phase,
        };
        *self = FrameTracker { phase, ledger: Ghost(ledger) };
    }
}

/// A step of the protocol keeps the ledger balanced.
pub proof fn lemma_step_keeps_balance(ledger: FrameLedger, phase: FramePhase, event: FrameEvent)
    requires
        balanced(ledger, phase),
    ensures
        balanced(next_ledger(ledger, phase, event), next_phase(phase, event)),
{
}

/// How one frame ends: with the draw call taken, or refused for a reason.
pub open spec fn last_event(refused: Option<FrameError>) -> FrameEvent {
    match refused {
        Some(error) => FrameEvent::Refused(error),
        None => FrameEvent::Submitted,
    }
}

/// The ledger after one whole frame, from its start in an idle container to
/// its release.
pub open spec fn ledger_after_frame(ledger: FrameLedger, dt: u64, refused: Option<FrameError>)
    -> FrameLedger {
    let p1 = next_phase(FramePhase::Idle, FrameEvent::Start(dt));
    let l1 = next_ledger(ledger, FramePhase::Idle, FrameEvent::Start(dt));
    let p2 = next_phase(p1, FrameEvent::Acquired);
    let l2 = next_ledger(l1, p1, FrameEvent::Acquired);
    next_ledger(l2, p2, last_event(refused))
}

/// The ledger after a run of whole frames, one for each entry of `frames`,
/// which gives a frame's length and how it ended.
pub open spec fn ledger_after_frames(ledger: FrameLedger, frames: Seq<(u64, Option<FrameError>)>)
    -> FrameLedger
    decreases frames.len(),
{
    if frames.len() == 0 {
        ledger
    } else {
        let last = frames.last();
        ledger_after_frame(ledger_after_frames(ledger, frames.drop_last()), last.0, last.1)
    }
}

/// A whole frame brings the container back to idle and adds exactly one
/// acquisition, one draw call and one release to the ledger, whether the draw
/// call was taken or refused.
pub proof fn lemma_frame_counts_once(ledger: FrameLedger, dt: u64, refused: Option<FrameError>)
    ensures
        next_phase(
            next_phase(next_phase(FramePhase::Idle, FrameEvent::Start(dt)), FrameEvent::Acquired),
            last_event(refused),
        ) == FramePhase::Idle,
        ledger_after_frame(ledger, dt, refused) == (FrameLedger {
            acquired: ledger.acquired + 1,
            submitted: ledger.submitted + 1,
            skipped: ledger.skipped,
            released: ledger.released + 1,
        }),
{
}

/// Any number of frames makes that number of acquisitions, of draw calls and
/// of releases: none is added, none is missing.
pub proof fn lemma_frames_count_once_each(
    ledger: FrameLedger,
    frames: Seq<(u64, Option<FrameError>)>,
)
    ensures
        ledger_after_frames(ledger, frames) == (FrameLedger {
            acquired: ledger.acquired + frames.len(),
            submitted: ledger.submitted + frames.len(),
            skipped: ledger.skipped,
            released: ledger.released + frames.len(),
        }),
    decreases frames.len(),
{
    if frames.len() > 0 {
        lemma_frames_count_once_each(ledger, frames.drop_last());
        lemma_frame_counts_once(
            ledger_after_frames(ledger, frames.drop_last()),
            frames.last().0,
            frames.last().1,
        );
    }
}

/// A frame that is given up is released all the same: it is acquired, gets
/// no draw call, and leaves the container idle.
pub proof fn lemma_cancelled_frame_is_released(ledger: FrameLedger, dt: u64)
    ensures
        next_phase(next_phase(FramePhase::Idle, FrameEvent::Start(dt)), FrameEvent::Cancelled)
            == FramePhase::Idle,
        next_ledger(
            next_ledger(ledger, FramePhase::Idle, FrameEvent::Start(dt)),
            FramePhase::Acquiring(dt),
            FrameEvent::Cancelled,
        ) == (FrameLedger {
            acquired: ledger.acquired + 1,
            submitted: ledger.submitted,
            skipped: ledger.skipped + 1,
            released: ledger.released + 1,
        }),
{
}

} // verus!
