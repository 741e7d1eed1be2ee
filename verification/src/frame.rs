use vstd::prelude::*;

verus! {

/// The phase a frame is in.  A frame walks `Idle` → `Acquiring` →
/// `Recording` → `Dispatching` → `Submitted` → `Presented` → `Idle`; a
/// surface that has gone out of date sends it back through a resize to
/// `Acquiring`, and unrecoverable device errors end the walk for good.
#[derive(Clone, Copy, PartialEq, Eq, Structural, Debug)]
pub enum FrameStage {
    Idle,
    Acquiring,
    Recording,
    Dispatching,
    Submitted,
    Presented,
}

/// What the outer loop reports back to the scheduler: the completion (or
/// failure) of the action it was last told to perform.
#[derive(Clone, Copy, PartialEq, Eq, Structural, Debug)]
pub enum FrameEvent {
    /// A new frame begins.
    Start,
    /// A presentable swapchain image with this index became available.
    ImageAcquired(usize),
    /// Acquisition found the surface out of date.
    AcquireOutOfDate,
    /// The resize-and-rebuild completed.
    ResizeDone,
    /// The resize-and-rebuild failed.
    ResizeFailed,
    /// Both command sequences were recorded.
    Recorded,
    /// Command recording failed.
    RecordFailed,
    /// The eraser compute dispatches were encoded after the primary pass
    /// and before the composition pass.
    Dispatched,
    /// The recorded work was handed to the queue.
    SubmitOk,
    /// Submission failed.
    SubmitFailed,
    /// Presentation of the frame's image succeeded.
    PresentOk,
    /// Presentation found the surface out of date or suboptimal.
    PresentOutOfDate,
    /// Presentation failed for any other reason.
    PresentFailed,
}

/// What the scheduler tells the outer loop to do next.
#[derive(Clone, Copy, PartialEq, Eq, Structural, Debug)]
pub enum FrameAction {
    /// Block until a presentable image is available.
    Acquire,
    /// Record both command sequences for this image index.
    Record(usize),
    /// Encode the two eraser compute dispatches between the passes.
    Dispatch,
    /// Hand the recorded work to the queue.
    Submit,
    /// Request presentation.
    Present,
    /// Wait for in-flight frames, then tear down and rebuild the
    /// extent-dependent resources.
    Resize,
    /// The frame completed: report success to the outer loop.
    Finish,
    /// An unrecoverable error: report a fatal result and stop the loop.
    Abort,
}

/// Drives one frame at a time through its stages, deciding after every
/// completion report what the outer loop must do next.  Resizes triggered
/// by an out-of-date surface are retried transparently; a second
/// consecutive resize failure escalates to fatal, as do recording and
/// submission errors.
pub struct FrameScheduler {
    pub stage: FrameStage,
    /// Consecutive failed resize attempts; cleared by a completed resize.
    pub resize_failures: u8,
    /// Set once an unrecoverable error was reported; the scheduler then
    /// accepts no further events.
    pub fatal: bool,
}

/// Whether `ev` is an event the outer loop can report while the scheduler
/// is in `stage`: the completion or failure of the action that stage
/// performs.
pub open spec fn event_fits(stage: FrameStage, ev: FrameEvent) -> bool {
    match stage {
        FrameStage::Idle => ev is Start,
        FrameStage::Acquiring => ev is ImageAcquired || ev is AcquireOutOfDate || ev is ResizeDone
            || ev is ResizeFailed,
        FrameStage::Recording => ev is Recorded || ev is RecordFailed,
        FrameStage::Dispatching => ev is Dispatched,
        FrameStage::Submitted => ev is SubmitOk || ev is SubmitFailed,
        FrameStage::Presented => ev is PresentOk || ev is PresentOutOfDate || ev is PresentFailed,
    }
}

/// The scheduler's whole transition function: from the current stage, the
/// consecutive-resize-failure count and an event to the next stage, the
/// next count, whether the walk ended fatally, and the action handed to
/// the outer loop.
pub open spec fn step_spec(stage: FrameStage, failures: u8, ev: FrameEvent) -> (
    FrameStage,
    u8,
    bool,
    FrameAction,
)
    recommends
        event_fits(stage, ev),
{
    match ev {
        FrameEvent::Start => (FrameStage::Acquiring, failures, false, FrameAction::Acquire),
        FrameEvent::ImageAcquired(n) => (
            FrameStage::Recording,
            failures,
            false,
            FrameAction::Record(n),
        ),
        FrameEvent::AcquireOutOfDate => (FrameStage::Acquiring, failures, false, FrameAction::Resize),
        FrameEvent::ResizeDone => (FrameStage::Acquiring, 0u8, false, FrameAction::Acquire),
        FrameEvent::ResizeFailed => if failures >= 1 {
            (stage, failures, true, FrameAction::Abort)
        } else {
            (FrameStage::Acquiring, 1u8, false, FrameAction::Resize)
        },
        FrameEvent::Recorded => (FrameStage::Dispatching, failures, false, FrameAction::Dispatch),
        FrameEvent::RecordFailed => (stage, failures, true, FrameAction::Abort),
        FrameEvent::Dispatched => (FrameStage::Submitted, failures, false, FrameAction::Submit),
        FrameEvent::SubmitOk => (FrameStage::Presented, failures, false, FrameAction::Present),
        FrameEvent::SubmitFailed => (stage, failures, true, FrameAction::Abort),
        FrameEvent::PresentOk => (FrameStage::Idle, failures, false, FrameAction::Finish),
        FrameEvent::PresentOutOfDate => (FrameStage::Acquiring, failures, false, FrameAction::Resize),
        FrameEvent::PresentFailed => (stage, failures, true, FrameAction::Abort),
    }
}

impl FrameScheduler {
    /// A scheduler between frames, with no error history.
    pub fn new() -> (s: Self)
        ensures
            s.stage == FrameStage::Idle,
            s.resize_failures == 0,
            !s.fatal,
    {
        FrameScheduler { stage: FrameStage::Idle, resize_failures: 0, fatal: false }
    }

    /// Takes the outer loop's report of what happened and answers with the
    /// next action, moving to the stage `step_spec` prescribes.
    pub fn step(&mut self, ev: FrameEvent) -> (action: FrameAction)
        requires
            !old(self).fatal,
            event_fits(old(self).stage, ev),
        ensures
            (final(self).stage, final(self).resize_failures, final(self).fatal, action)
                == step_spec(old(self).stage, old(self).resize_failures, ev),
    {
        match ev {
            FrameEvent::Start => {
                self.stage = FrameStage::Acquiring;
                FrameAction::Acquire
            },
            FrameEvent::ImageAcquired(n) => {
                self.stage = FrameStage::Recording;
                FrameAction::Record(n)
            },
            FrameEvent::AcquireOutOfDate => {
                self.stage = FrameStage::Acquiring;
                FrameAction::Resize
            },
            FrameEvent::ResizeDone => {
                self.stage = FrameStage::Acquiring;
                self.resize_failures = 0;
                FrameAction::Acquire
            },
            FrameEvent::ResizeFailed => {
                if self.resize_failures >= 1 {
                    self.fatal = true;
                    FrameAction::Abort
                } else {
                    self.stage = FrameStage::Acquiring;
                    self.resize_failures = 1;
                    FrameAction::Resize
                }
            },
            FrameEvent::Recorded => {
                self.stage = FrameStage::Dispatching;
                FrameAction::Dispatch
            },
            FrameEvent::RecordFailed => {
                self.fatal = true;
                FrameAction::Abort
            },
            FrameEvent::Dispatched => {
                self.stage = FrameStage::Submitted;
                FrameAction::Submit
            },
            FrameEvent::SubmitOk => {
                self.stage = FrameStage::Presented;
                FrameAction::Present
            },
            FrameEvent::SubmitFailed => {
                self.fatal = true;
                FrameAction::Abort
            },
            FrameEvent::PresentOk => {
                self.stage = FrameStage::Idle;
                FrameAction::Finish
            },
            FrameEvent::PresentOutOfDate => {
                self.stage = FrameStage::Acquiring;
                FrameAction::Resize
            },
            FrameEvent::PresentFailed => {
                self.fatal = true;
                FrameAction::Abort
            },
        }
    }
}

} // verus!
