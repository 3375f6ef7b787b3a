//! The per-frame protocol of a renderer with a single frame in flight:
//! wait for the previous frame, acquire an image, record, submit, present.
//!
//! The protocol is a state machine. The application performs each action that
//! `FrameEngine::step` hands out and reports back what happened; the engine
//! decides what to do next and tracks the synchronisation objects.
use vstd::prelude::*;

verus! {

/// The host-waitable "frame complete" fence.
#[derive(Clone, Copy, Debug, PartialEq, Eq, Structural)]
pub enum FenceState {
    /// Signaled: a wait returns at once.
    Signaled,
    /// Unsignaled, with submitted work that will signal it.
    Pending,
    /// Unsignaled, with nothing submitted that would signal it: a wait blocks.
    Unsignaled,
}

/// The three synchronisation objects of the single frame in flight. A
/// semaphore is `true` while a signal operation on it is queued and not yet
/// consumed by a wait.
#[derive(Clone, Copy, Debug, PartialEq, Eq, Structural)]
pub struct FrameSync {
    pub fence: FenceState,
    pub image_available: bool,
    pub render_finished: bool,
}

/// Why a frame could not be completed. Each one is fatal for the engine.
#[derive(Clone, Copy, Debug, PartialEq, Eq, Structural)]
pub enum FrameError {
    FenceTimeout,
    AcquireFailed,
    /// The chain handed out an index with no framebuffer.
    ImageIndexOutOfRange,
    SubmitFailed,
    PresentFailed,
    /// An event arrived that the current stage does not expect.
    UnexpectedEvent,
}

/// Where the engine stands within one `draw`.
#[derive(Clone, Copy, Debug, PartialEq, Eq, Structural)]
pub enum FrameStage {
    Idle,
    WaitingFence,
    ResettingFence,
    Acquiring,
    Recording { image_index: u32 },
    Submitting { image_index: u32 },
    Presenting { image_index: u32 },
    Failed { error: FrameError },
}

/// What the application reports after carrying out an action.
#[derive(Clone, Copy, Debug, PartialEq, Eq, Structural)]
pub enum FrameEvent {
    /// The caller asks for one frame to be drawn.
    DrawRequested,
    FenceSignaled,
    FenceTimedOut,
    FenceReset,
    ImageAcquired { image_index: u32, suboptimal: bool },
    AcquireFailed,
    Recorded,
    Submitted,
    SubmitFailed,
    Presented,
    PresentFailed,
}

/// What the application is to do next.
#[derive(Clone, Copy, Debug, PartialEq, Eq, Structural)]
pub enum FrameAction {
    /// Wait on the frame-complete fence, with the bounded timeout.
    WaitFence,
    /// Reset the frame-complete fence to unsignaled.
    ResetFence,
    /// Acquire the next image, signaling "image available".
    AcquireImage,
    /// Reset and record the command buffer: clear the framebuffer of
    /// `image_index`, bind pipeline and vertex buffer, draw `vertex_count`.
    Record { image_index: u32, vertex_count: u32 },
    /// Submit: wait on "image available", signal "render finished" and the fence.
    Submit,
    /// Present `image_index`, waiting on "render finished".
    Present { image_index: u32 },
    /// The frame is complete.
    FrameDone,
    /// Stop: the engine cannot go on.
    Abort { error: FrameError },
}

/// Mathematical state of the engine.
pub struct FrameModel {
    pub stage: FrameStage,
    pub sync: FrameSync,
    pub image_count: u32,
    pub vertex_count: u32,
}

/// Frame-protocol state of the engine: stage, synchronisation objects, and
/// the two sizes that every frame uses.
pub struct FrameEngine {
    stage: FrameStage,
    sync: FrameSync,
    image_count: u32,
    vertex_count: u32,
}

pub open spec fn initial_sync() -> FrameSync {
    FrameSync { fence: FenceState::Signaled, image_available: false, render_finished: false }
}

/// A state in which `draw` may start: idle, no signal left unconsumed, and a
/// fence that a wait will see signaled without blocking.
pub open spec fn ready_to_draw(m: FrameModel) -> bool {
    &&& m.stage == FrameStage::Idle
    &&& m.sync.fence != FenceState::Unsignaled
    &&& !m.sync.image_available
    &&& !m.sync.render_finished
}

pub open spec fn fail(m: FrameModel, e: FrameError) -> (FrameModel, FrameAction) {
    (FrameModel { stage: FrameStage::Failed { error: e }, ..m }, FrameAction::Abort { error: e })
}

pub open spec fn goto(m: FrameModel, stage: FrameStage, sync: FrameSync, a: FrameAction) -> (
    FrameModel,
    FrameAction,
) {
    (FrameModel { stage, sync, ..m }, a)
}

/// One transition of the frame protocol.
pub open spec fn step_spec(m: FrameModel, ev: FrameEvent) -> (FrameModel, FrameAction) {
    let s = m.sync;
    match m.stage {
        FrameStage::Failed { error } => (m, FrameAction::Abort { error }),
        FrameStage::Idle => match ev {
            FrameEvent::DrawRequested => goto(
                m,
                FrameStage::WaitingFence,
                s,
                FrameAction::WaitFence,
            ),
            _ => fail(m, FrameError::UnexpectedEvent),
        },
        FrameStage::WaitingFence => match ev {
            FrameEvent::FenceSignaled => goto(
                m,
                FrameStage::ResettingFence,
                FrameSync { fence: FenceState::Signaled, ..s },
                FrameAction::ResetFence,
            ),
            FrameEvent::FenceTimedOut => fail(m, FrameError::FenceTimeout),
            _ => fail(m, FrameError::UnexpectedEvent),
        },
        FrameStage::ResettingFence => match ev {
            FrameEvent::FenceReset => goto(
                m,
                FrameStage::Acquiring,
                FrameSync { fence: FenceState::Unsignaled, ..s },
                FrameAction::AcquireImage,
            ),
            _ => fail(m, FrameError::UnexpectedEvent),
        },
        FrameStage::Acquiring => match ev {
            FrameEvent::ImageAcquired { image_index, suboptimal } => if image_index
                < m.image_count {
                goto(
                    m,
                    FrameStage::Recording { image_index },
                    FrameSync { image_available: true, ..s },
                    FrameAction::Record { image_index, vertex_count: m.vertex_count },
                )
            } else {
                fail(m, FrameError::ImageIndexOutOfRange)
            },
            FrameEvent::AcquireFailed => fail(m, FrameError::AcquireFailed),
            _ => fail(m, FrameError::UnexpectedEvent),
        },
        FrameStage::Recording { image_index } => match ev {
            FrameEvent::Recorded => goto(
                m,
                FrameStage::Submitting { image_index },
                s,
                FrameAction::Submit,
            ),
            _ => fail(m, FrameError::UnexpectedEvent),
        },
        FrameStage::Submitting { image_index } => match ev {
            FrameEvent::Submitted => goto(
                m,
                FrameStage::Presenting { image_index },
                FrameSync {
                    fence: FenceState::Pending,
                    image_available: false,
                    render_finished: true,
                },
                FrameAction::Present { image_index },
            ),
            FrameEvent::SubmitFailed => fail(m, FrameError::SubmitFailed),
            _ => fail(m, FrameError::UnexpectedEvent),
        },
        FrameStage::Presenting { image_index } => match ev {
            FrameEvent::Presented => goto(
                m,
                FrameStage::Idle,
                FrameSync { render_finished: false, ..s },
                FrameAction::FrameDone,
            ),
            FrameEvent::PresentFailed => fail(m, FrameError::PresentFailed),
            _ => fail(m, FrameError::UnexpectedEvent),
        },
    }
}

impl View for FrameEngine {
    type V = FrameModel;

    closed spec fn view(&self) -> FrameModel {
        FrameModel {
            stage: self.stage,
            sync: self.sync,
            image_count: self.image_count,
            vertex_count: self.vertex_count,
        }
    }
}

impl FrameEngine {
    /// An idle engine for a chain of `image_count` images and a mesh of
    /// `vertex_count` vertices. The fence starts signaled, so the first
    /// frame does not wait for work that nobody submitted.
    pub fn new(image_count: u32, vertex_count: u32) -> (r: FrameEngine)
        ensures
            r@ == (FrameModel {
                stage: FrameStage::Idle,
                sync: initial_sync(),
                image_count,
                vertex_count,
            }),
            ready_to_draw(r@),
    {
        FrameEngine {
            stage: FrameStage::Idle,
            sync: FrameSync {
                fence: FenceState::Signaled,
                image_available: false,
                render_finished: false,
            },
            image_count,
            vertex_count,
        }
    }

    pub fn stage(&self) -> (r: FrameStage)
        ensures
            r == self@.stage,
    {
        self.stage
    }

    pub fn sync(&self) -> (r: FrameSync)
        ensures
            r == self@.sync,
    {
        self.sync
    }

    /// Whether a new frame may start now.
    pub fn is_ready(&self) -> (r: bool)
        ensures
            r == ready_to_draw(self@),
    {
        self.stage == FrameStage::Idle && self.sync.fence != FenceState::Unsignaled
            && !self.sync.image_available && !self.sync.render_finished
    }

    fn fail(&mut self, e: FrameError) -> (a: FrameAction)
        ensures
            (final(self)@, a) == fail(old(self)@, e),
    {
        self.stage = FrameStage::Failed { error: e };
        FrameAction::Abort { error: e }
    }

    /// Takes the outcome of the last action and returns the next one.
    pub fn step(&mut self, ev: FrameEvent) -> (a: FrameAction)
        ensures
            (final(self)@, a) == step_spec(old(self)@, ev),
    {
        match self.stage {
            FrameStage::Failed { error } => FrameAction::Abort { error },
            FrameStage::Idle => match ev {
                FrameEvent::DrawRequested => {
                    self.stage = FrameStage::WaitingFence;
                    FrameAction::WaitFence
                },
                _ => self.fail(FrameError::UnexpectedEvent),
            },
            FrameStage::WaitingFence => match ev {
                FrameEvent::FenceSignaled => {
                    self.stage = FrameStage::ResettingFence;
                    self.sync.fence = FenceState::Signaled;
                    FrameAction::ResetFence
                },
                FrameEvent::FenceTimedOut => self.fail(FrameError::FenceTimeout),
                _ => self.fail(FrameError::UnexpectedEvent),
            },
            FrameStage::ResettingFence => match ev {
                FrameEvent::FenceReset => {
                    self.stage = FrameStage::Acquiring;
                    self.sync.fence = FenceState::Unsignaled;
                    FrameAction::AcquireImage
                },
                _ => self.fail(FrameError::UnexpectedEvent),
            },
            FrameStage::Acquiring => match ev {
                FrameEvent::ImageAcquired { image_index, suboptimal } => {
                    if image_index < self.image_count {
                        self.stage = FrameStage::Recording { image_index };
                        self.sync.image_available = true;
                        FrameAction::Record { image_index, vertex_count: self.vertex_count }
                    } else {
                        self.fail(FrameError::ImageIndexOutOfRange)
                    }
                },
                FrameEvent::AcquireFailed => self.fail(FrameError::AcquireFailed),
                _ => self.fail(FrameError::UnexpectedEvent),
            },
            FrameStage::Recording { image_index } => match ev {
                FrameEvent::Recorded => {
                    self.stage = FrameStage::Submitting { image_index };
                    FrameAction::Submit
                },
                _ => self.fail(FrameError::UnexpectedEvent),
            },
            FrameStage::Submitting { image_index } => match ev {
                FrameEvent::Submitted => {
                    self.stage = FrameStage::Presenting { image_index };
                    self.sync = FrameSync {
                        fence: FenceState::Pending,
                        image_available: false,
                        render_finished: true,
                    };
                    FrameAction::Present { image_index }
                },
                FrameEvent::SubmitFailed => self.fail(FrameError::SubmitFailed),
                _ => self.fail(FrameError::UnexpectedEvent),
            },
            FrameStage::Presenting { image_index } => match ev {
                FrameEvent::Presented => {
                    self.stage = FrameStage::Idle;
                    self.sync.render_finished = false;
                    FrameAction::FrameDone
                },
                FrameEvent::PresentFailed => self.fail(FrameError::PresentFailed),
                _ => self.fail(FrameError::UnexpectedEvent),
            },
        }
    }
}

/// The state reached by handing the events to the engine in order.
pub open spec fn run_events(m: FrameModel, evs: Seq<FrameEvent>) -> FrameModel
    decreases evs.len(),
{
    if evs.len() == 0 {
        m
    } else {
        run_events(step_spec(m, evs[0]).0, evs.drop_first())
    }
}

/// The events of one frame that goes through without error.
pub open spec fn frame_events(image_index: u32, suboptimal: bool) -> Seq<FrameEvent> {
    seq![
        FrameEvent::DrawRequested,
        FrameEvent::FenceSignaled,
        FrameEvent::FenceReset,
        FrameEvent::ImageAcquired { image_index, suboptimal },
        FrameEvent::Recorded,
        FrameEvent::Submitted,
        FrameEvent::Presented,
    ]
}

/// The events of consecutive successful frames, one per acquired index.
pub open spec fn frames_events(indices: Seq<u32>) -> Seq<FrameEvent>
    decreases indices.len(),
{
    if indices.len() == 0 {
        Seq::empty()
    } else {
        frame_events(indices[0], false) + frames_events(indices.drop_first())
    }
}

proof fn lemma_run_append(m: FrameModel, a: Seq<FrameEvent>, b: Seq<FrameEvent>)
    ensures
        run_events(m, a + b) == run_events(run_events(m, a), b),
    decreases a.len(),
{
    if a.len() > 0 {
        assert((a + b).drop_first() =~= a.drop_first() + b);
        lemma_run_append(step_spec(m, a[0]).0, a.drop_first(), b);
    } else {
        assert(a + b =~= b);
    }
}

/// The first `draw` of a new engine waits on a fence that is already
/// signaled, so it does not block on work that no frame submitted.
pub proof fn lemma_first_wait_does_not_block(image_count: u32, vertex_count: u32)
    ensures
        ({
            let m = FrameModel { stage: FrameStage::Idle, sync: initial_sync(), image_count, vertex_count };
            let (m1, a) = step_spec(m, FrameEvent::DrawRequested);
            &&& a == FrameAction::WaitFence
            &&& m1.sync.fence == FenceState::Signaled
            &&& ready_to_draw(m)
        }),
{
}

/// From any state ready to draw, the wait that starts a frame is on a fence
/// that is signaled or will be signaled by work already submitted.
pub proof fn lemma_wait_has_a_signaler(m: FrameModel)
    requires
        ready_to_draw(m),
    ensures
        step_spec(m, FrameEvent::DrawRequested).1 == FrameAction::WaitFence,
        step_spec(m, FrameEvent::DrawRequested).0.sync.fence != FenceState::Unsignaled,
{
}

/// One successful frame issues exactly wait, reset, acquire, record, submit,
/// present, and leaves the engine ready to draw again, with every signal
/// consumed and the fence pending on the submitted work.
pub proof fn lemma_frame_restores_ready(m: FrameModel, image_index: u32, suboptimal: bool)
    requires
        ready_to_draw(m),
        image_index < m.image_count,
    ensures
        ({
            let evs = frame_events(image_index, suboptimal);
            let m1 = step_spec(m, evs[0]).0;
            let m2 = step_spec(m1, evs[1]).0;
            let m3 = step_spec(m2, evs[2]).0;
            let m4 = step_spec(m3, evs[3]).0;
            let m5 = step_spec(m4, evs[4]).0;
            let m6 = step_spec(m5, evs[5]).0;
            &&& step_spec(m, evs[0]).1 == FrameAction::WaitFence
            &&& step_spec(m1, evs[1]).1 == FrameAction::ResetFence
            &&& step_spec(m2, evs[2]).1 == FrameAction::AcquireImage
            &&& step_spec(m3, evs[3]).1 == (FrameAction::Record {
                image_index,
                vertex_count: m.vertex_count,
            })
            &&& step_spec(m4, evs[4]).1 == FrameAction::Submit
            &&& step_spec(m5, evs[5]).1 == (FrameAction::Present { image_index })
            &&& step_spec(m6, evs[6]).1 == FrameAction::FrameDone
        }),
        ready_to_draw(run_events(m, frame_events(image_index, suboptimal))),
        run_events(m, frame_events(image_index, suboptimal)).sync == (FrameSync {
            fence: FenceState::Pending,
            image_available: false,
            render_finished: false,
        }),
        run_events(m, frame_events(image_index, suboptimal)).image_count == m.image_count,
        run_events(m, frame_events(image_index, suboptimal)).vertex_count == m.vertex_count,
{
    let evs = frame_events(image_index, suboptimal);
    assert(run_events(m, evs) == run_events(step_spec(m, evs[0]).0, evs.drop_first()));
    reveal_with_fuel(run_events, 8);
}

/// Any number of successful frames in a row keeps the engine ready to draw:
/// the synchronisation objects come back to a safe configuration after each.
pub proof fn lemma_frames_keep_ready(m: FrameModel, indices: Seq<u32>)
    requires
        ready_to_draw(m),
        forall|k: int| 0 <= k < indices.len() ==> #[trigger] indices[k] < m.image_count,
    ensures
        ready_to_draw(run_events(m, frames_events(indices))),
        run_events(m, frames_events(indices)).image_count == m.image_count,
        run_events(m, frames_events(indices)).vertex_count == m.vertex_count,
    decreases indices.len(),
{
    if indices.len() > 0 {
        lemma_frame_restores_ready(m, indices[0], false);
        let m1 = run_events(m, frame_events(indices[0], false));
        lemma_run_append(m, frame_events(indices[0], false), frames_events(indices.drop_first()));
        assert forall|k: int| 0 <= k < indices.drop_first().len() implies #[trigger] indices.drop_first()[k]
            < m1.image_count by {
            assert(indices.drop_first()[k] == indices[k + 1]);
        }
        lemma_frames_keep_ready(m1, indices.drop_first());
    }
}

} // verus!
