//! The detection cycle controller: a state machine that decides, event by
//! event, what the driver of a run does next. The driver fetches frames,
//! converts them, runs the detector, and reports each outcome back here.
use vstd::prelude::*;
use crate::sampling::{cadence, selected, sampling_interval, is_sampled};

verus! {

/// Where a run stands.
#[derive(Debug, Clone, Copy, PartialEq, Eq, Structural)]
pub enum Phase {
    /// Stream and model are initialized; no frame has been requested yet.
    Idle,
    /// Frames are being fetched and processed.
    Streaming,
    /// The stream ended, or a frame could not be fetched: the run is over
    /// and succeeded.
    Draining,
    /// The stream could not be opened or the model could not be built.
    Failed,
    /// The detector failed on a frame: the run is over and failed.
    Aborted,
}

/// Which outcome a streaming run waits for next.
#[derive(Debug, Clone, Copy, PartialEq, Eq, Structural)]
pub enum Stage {
    /// The next frame from the source.
    AwaitFrame,
    /// The conversion of the frame being processed.
    AwaitConversion,
    /// The detector's result for the frame being processed.
    AwaitDetections,
}

/// What to do with the frame just fetched.
#[derive(Debug, Clone, Copy, PartialEq, Eq, Structural)]
pub enum FrameStep {
    /// Not on the cadence: drop it and fetch the next one.
    Skip,
    /// On the cadence: convert it and run the detector on it.
    Process,
    /// No frame came: the run is over.
    Stop,
}

/// The state of one run.
pub struct Controller {
    phase: Phase,
    stage: Stage,
    interval: u64,
    next_index: u64,
    current: u64,
    processed: u64,
    rejected: u64,
}

impl Controller {
    pub closed spec fn spec_phase(&self) -> Phase {
        self.phase
    }

    pub closed spec fn spec_stage(&self) -> Stage {
        self.stage
    }

    pub closed spec fn spec_interval(&self) -> u64 {
        self.interval
    }

    pub closed spec fn spec_next_index(&self) -> u64 {
        self.next_index
    }

    pub closed spec fn spec_current(&self) -> u64 {
        self.current
    }

    pub closed spec fn spec_processed(&self) -> u64 {
        self.processed
    }

    pub closed spec fn spec_rejected(&self) -> u64 {
        self.rejected
    }

    /// The controller's internal consistency.
    pub closed spec fn wf(&self) -> bool {
        &&& self.interval >= 1
        &&& self.processed + self.rejected <= self.next_index
        &&& self.stage != Stage::AwaitFrame ==> {
            &&& self.phase == Phase::Streaming
            &&& self.current < self.next_index
            &&& self.processed + self.rejected < self.next_index
            &&& selected(self.current as int, self.interval as int)
        }
    }

    /// A run whose stream and model are both initialized, on a stream whose
    /// frame rate rounds to `rounded_fps`.
    pub fn new(rounded_fps: u64) -> (r: Controller)
        ensures
            r.wf(),
            r.spec_phase() == Phase::Idle,
            r.spec_stage() == Stage::AwaitFrame,
            r.spec_interval() == cadence(rounded_fps as int),
            r.spec_next_index() == 0,
            r.spec_processed() == 0,
            r.spec_rejected() == 0,
    {
        Controller {
            phase: Phase::Idle,
            stage: Stage::AwaitFrame,
            interval: sampling_interval(rounded_fps),
            next_index: 0,
            current: 0,
            processed: 0,
            rejected: 0,
        }
    }

    /// A run whose stream or model could not be initialized.
    pub fn failed() -> (r: Controller)
        ensures
            r.wf(),
            r.spec_phase() == Phase::Failed,
            r.spec_stage() == Stage::AwaitFrame,
            r.spec_next_index() == 0,
            r.spec_processed() == 0,
            r.spec_rejected() == 0,
    {
        Controller {
            phase: Phase::Failed,
            stage: Stage::AwaitFrame,
            interval: 1,
            next_index: 0,
            current: 0,
            processed: 0,
            rejected: 0,
        }
    }

    /// Starts streaming.
    pub fn start(&mut self)
        requires
            old(self).wf(),
            old(self).spec_phase() == Phase::Idle,
        ensures
            final(self).wf(),
            final(self).spec_phase() == Phase::Streaming,
            final(self).spec_stage() == Stage::AwaitFrame,
            final(self).spec_interval() == old(self).spec_interval(),
            final(self).spec_next_index() == old(self).spec_next_index(),
            final(self).spec_current() == old(self).spec_current(),
            final(self).spec_processed() == old(self).spec_processed(),
            final(self).spec_rejected() == old(self).spec_rejected(),
    {
        self.phase = Phase::Streaming;
    }

    /// Decides on the next frame of the stream, whose index is
    /// `next_index`; `fetched` is false when the source had no frame to give,
    /// because it ended or failed to decode one.
    pub fn on_frame(&mut self, fetched: bool) -> (r: FrameStep)
        requires
            old(self).wf(),
            old(self).spec_phase() == Phase::Streaming,
            old(self).spec_stage() == Stage::AwaitFrame,
            old(self).spec_next_index() < u64::MAX,
        ensures
            final(self).wf(),
            final(self).spec_interval() == old(self).spec_interval(),
            final(self).spec_processed() == old(self).spec_processed(),
            final(self).spec_rejected() == old(self).spec_rejected(),
            !fetched ==> {
                &&& r == FrameStep::Stop
                &&& final(self).spec_phase() == Phase::Draining
                &&& final(self).spec_stage() == Stage::AwaitFrame
                &&& final(self).spec_next_index() == old(self).spec_next_index()
                &&& final(self).spec_current() == old(self).spec_current()
            },
            fetched ==> {
                &&& final(self).spec_phase() == Phase::Streaming
                &&& final(self).spec_next_index() == old(self).spec_next_index() + 1
                &&& if selected(
                    old(self).spec_next_index() as int,
                    old(self).spec_interval() as int,
                ) {
                    &&& r == FrameStep::Process
                    &&& final(self).spec_stage() == Stage::AwaitConversion
                    &&& final(self).spec_current() == old(self).spec_next_index()
                } else {
                    &&& r == FrameStep::Skip
                    &&& final(self).spec_stage() == Stage::AwaitFrame
                    &&& final(self).spec_current() == old(self).spec_current()
                }
            },
    {
        if !fetched {
            self.phase = Phase::Draining;
            return FrameStep::Stop;
        }
        let index = self.next_index;
        self.next_index = index + 1;
        if is_sampled(index, self.interval) {
            self.current = index;
            self.stage = Stage::AwaitConversion;
            FrameStep::Process
        } else {
            FrameStep::Skip
        }
    }

    /// Records whether the frame being processed was converted. A frame that
    /// could not be converted is skipped and the run goes on; the result says
    /// whether to run the detector on it.
    pub fn on_converted(&mut self, converted: bool) -> (r: bool)
        requires
            old(self).wf(),
            old(self).spec_stage() == Stage::AwaitConversion,
        ensures
            final(self).wf(),
            r == converted,
            final(self).spec_phase() == Phase::Streaming,
            final(self).spec_interval() == old(self).spec_interval(),
            final(self).spec_next_index() == old(self).spec_next_index(),
            final(self).spec_current() == old(self).spec_current(),
            final(self).spec_processed() == old(self).spec_processed(),
            converted ==> final(self).spec_stage() == Stage::AwaitDetections
                && final(self).spec_rejected() == old(self).spec_rejected(),
            !converted ==> final(self).spec_stage() == Stage::AwaitFrame
                && final(self).spec_rejected() == old(self).spec_rejected() + 1,
    {
        if converted {
            self.stage = Stage::AwaitDetections;
        } else {
            self.rejected = self.rejected + 1;
            self.stage = Stage::AwaitFrame;
        }
        converted
    }

    /// Records the detector's outcome on the frame being processed. A
    /// detector failure ends the run; otherwise the frame counts as processed
    /// and the next frame is awaited.
    pub fn on_detections(&mut self, succeeded: bool)
        requires
            old(self).wf(),
            old(self).spec_stage() == Stage::AwaitDetections,
        ensures
            final(self).wf(),
            final(self).spec_stage() == Stage::AwaitFrame,
            final(self).spec_interval() == old(self).spec_interval(),
            final(self).spec_next_index() == old(self).spec_next_index(),
            final(self).spec_current() == old(self).spec_current(),
            final(self).spec_rejected() == old(self).spec_rejected(),
            succeeded ==> final(self).spec_phase() == Phase::Streaming
                && final(self).spec_processed() == old(self).spec_processed() + 1,
            !succeeded ==> final(self).spec_phase() == Phase::Aborted
                && final(self).spec_processed() == old(self).spec_processed(),
    {
        self.stage = Stage::AwaitFrame;
        if succeeded {
            self.processed = self.processed + 1;
        } else {
            self.phase = Phase::Aborted;
        }
    }

    /// The process exit code once the run is over: zero when the stream was
    /// drained, one on a fatal error; `None` while the run goes on.
    pub fn exit_code(&self) -> (r: Option<i32>)
        ensures
            r == match self.spec_phase() {
                Phase::Draining => Some(0i32),
                Phase::Failed | Phase::Aborted => Some(1i32),
                _ => None,
            },
    {
        match self.phase {
            Phase::Draining => Some(0),
            Phase::Failed | Phase::Aborted => Some(1),
            _ => None,
        }
    }

    pub fn phase(&self) -> (r: Phase)
        ensures
            r == self.spec_phase(),
    {
        self.phase
    }

    pub fn stage(&self) -> (r: Stage)
        ensures
            r == self.spec_stage(),
    {
        self.stage
    }

    pub fn interval(&self) -> (r: u64)
        ensures
            r == self.spec_interval(),
    {
        self.interval
    }

    /// The index that the next fetched frame will have.
    pub fn next_index(&self) -> (r: u64)
        ensures
            r == self.spec_next_index(),
    {
        self.next_index
    }

    /// The index of the frame being processed, or of the last one that was.
    pub fn current(&self) -> (r: u64)
        ensures
            r == self.spec_current(),
    {
        self.current
    }

    /// How many frames went through the detector.
    pub fn processed(&self) -> (r: u64)
        ensures
            r == self.spec_processed(),
    {
        self.processed
    }

    /// How many sampled frames were skipped because they could not be converted.
    pub fn rejected(&self) -> (r: u64)
        ensures
            r == self.spec_rejected(),
    {
        self.rejected
    }
}

} // verus!
