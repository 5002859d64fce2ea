use vstd::prelude::*;
use crate::capture::{CyclePhase, WlrFrame};
use crate::channel::{Offer, PendingSlot};
use crate::frame::FrameData;

verus! {

/// What the capture thread does next.
#[derive(Clone, Copy, Debug, PartialEq, Eq, Structural)]
pub enum LoopStep {
    /// Request a capture of the output; a cycle is now in flight.
    Capture,
    /// A cycle is in flight: wait for the compositor's next report.
    Dispatch,
    /// Nothing is asked for: sleep until a frame is demanded or the thread is
    /// told to stop.
    Park,
    /// Leave the loop and clean up.
    Exit,
}

/// The thread's control block as contracts speak of it.
pub struct ThreadView {
    /// The output that the thread captures.
    pub output: u32,
    /// False once the thread was told to stop.
    pub running: bool,
    /// True while the consumer waits for a frame that has not been asked of
    /// the compositor yet.
    pub demand: bool,
}

impl ThreadView {
    /// The decision of the loop. A cycle in flight is always waited for, also
    /// after the thread was told to stop; a new one begins only while the
    /// thread runs and a frame is demanded.
    pub open spec fn decide(self, waiting: bool) -> LoopStep {
        if waiting {
            LoopStep::Dispatch
        } else if !self.running {
            LoopStep::Exit
        } else if self.demand {
            LoopStep::Capture
        } else {
            LoopStep::Park
        }
    }

    pub open spec fn after(self, waiting: bool) -> ThreadView {
        if self.decide(waiting) is Capture {
            ThreadView { demand: false, ..self }
        } else {
            self
        }
    }
}

/// What the capture thread and those who control it share: whether it should
/// go on, and whether the consumer wants a frame.
#[derive(Debug)]
pub struct VideoThread {
    output: u32,
    running: bool,
    demand: bool,
}

impl View for VideoThread {
    type V = ThreadView;

    closed spec fn view(&self) -> ThreadView {
        ThreadView { output: self.output, running: self.running, demand: self.demand }
    }
}

impl VideoThread {
    /// The control block of a thread that is about to capture `output`.
    pub fn new(output: u32) -> (thread: VideoThread)
        ensures
            thread@ == (ThreadView { output, running: true, demand: false }),
    {
        VideoThread { output, running: true, demand: false }
    }

    pub fn output(&self) -> (output: u32)
        ensures
            output == self@.output,
    {
        self.output
    }

    pub fn is_running(&self) -> (running: bool)
        ensures
            running == self@.running,
    {
        self.running
    }

    pub fn has_demand(&self) -> (demand: bool)
        ensures
            demand == self@.demand,
    {
        self.demand
    }

    /// The consumer wants a frame. Tells whether the thread has to be woken,
    /// which is the case unless it was told to stop.
    pub fn request_frame(&mut self) -> (wake: bool)
        ensures
            wake == old(self)@.running,
            final(self)@ == (ThreadView { demand: old(self)@.running, ..old(self)@ }),
    {
        self.demand = self.running;
        self.running
    }

    /// Tells the thread to stop. It must be woken afterwards, and joined.
    pub fn stop(&mut self)
        ensures
            final(self)@ == (ThreadView { running: false, demand: false, ..old(self)@ }),
    {
        self.running = false;
        self.demand = false;
    }

    /// One turn of the thread's loop: decides what to do next, and marks the
    /// cycle as in flight if a capture is to be requested.
    pub fn next_step(&mut self, frame: &mut WlrFrame) -> (step: LoopStep)
        requires
            old(frame).wf(),
        ensures
            final(frame).wf(),
            step == old(self)@.decide(old(frame)@.waiting()),
            final(self)@ == old(self)@.after(old(frame)@.waiting()),
            step is Capture ==> final(frame)@ == old(frame)@.begin(true) && final(frame)@.phase
                == CyclePhase::Requested,
            !(step is Capture) ==> final(frame)@ == old(frame)@,
    {
        if frame.waiting() {
            LoopStep::Dispatch
        } else if !self.running {
            LoopStep::Exit
        } else if self.demand {
            self.demand = false;
            let started = frame.handle_output(true);
            assert(started);
            LoopStep::Capture
        } else {
            LoopStep::Park
        }
    }

    /// Offers a finished frame to the consumer. If the consumer is gone the
    /// thread takes that as the order to stop.
    pub fn publish(&mut self, slot: &mut PendingSlot, frame: FrameData) -> (outcome: Offer)
        requires
            old(slot).wf(),
        ensures
            final(slot).wf(),
            (final(slot)@, outcome) == old(slot)@.offer(frame),
            outcome is Closed ==> final(self)@ == (ThreadView {
                running: false,
                demand: false,
                ..old(self)@
            }),
            !(outcome is Closed) ==> final(self)@ == old(self)@,
    {
        let outcome = slot.offer(frame);
        match &outcome {
            Offer::Closed(_) => {
                self.stop();
            },
            _ => {},
        }
        outcome
    }
}

/// Counts the captures requested within a second, for the log.
#[derive(Debug)]
pub struct CycleCounter {
    count: u64,
}

impl CycleCounter {
    pub closed spec fn spec_count(&self) -> u64 {
        self.count
    }

    /// How far `count` gets by one more capture.
    pub open spec fn counted(count: u64, requested: bool) -> u64 {
        if requested && count < u64::MAX {
            (count + 1) as u64
        } else {
            count
        }
    }

    pub fn new() -> (counter: CycleCounter)
        ensures
            counter.spec_count() == 0,
    {
        CycleCounter { count: 0 }
    }

    /// Takes one turn of the loop: whether a capture was requested, and the
    /// milliseconds since the count began. After more than a second the
    /// count comes out and starts anew; the caller then restarts the clock.
    pub fn tick(&mut self, requested: bool, elapsed_ms: u128) -> (report: Option<u64>)
        ensures
            elapsed_ms > 1000 ==> report == Some(Self::counted(old(self).spec_count(), requested))
                && final(self).spec_count() == 0,
            elapsed_ms <= 1000 ==> report is None && final(self).spec_count() == Self::counted(
                old(self).spec_count(),
                requested,
            ),
    {
        if requested && self.count < u64::MAX {
            self.count = self.count + 1;
        }
        if elapsed_ms > 1000 {
            let report = self.count;
            self.count = 0;
            Some(report)
        } else {
            None
        }
    }
}

/// Once the thread was told to stop it never requests another capture: it
/// waits for the cycle in flight, if there is one, and then leaves.
pub proof fn lemma_no_capture_after_stop(thread: ThreadView, waiting: bool)
    requires
        !thread.running,
    ensures
        thread.decide(waiting) == (if waiting {
            LoopStep::Dispatch
        } else {
            LoopStep::Exit
        }),
        thread.after(waiting) == thread,
{
}

/// The thread sleeps only when it has nothing to do: it runs, no cycle is in
/// flight and no frame is demanded. It leaves only when no cycle is in
/// flight.
pub proof fn lemma_park_and_exit(thread: ThreadView, waiting: bool)
    ensures
        thread.decide(waiting) is Park <==> thread.running && !waiting && !thread.demand,
        thread.decide(waiting) is Exit <==> !thread.running && !waiting,
        thread.decide(waiting) is Capture <==> thread.running && !waiting && thread.demand,
{
}

} // verus!
